use media_worker::wire::LineWriter;

#[test]
fn a_line_is_written_piece_by_piece() {
    let mut writer = LineWriter::new();
    writer.open_object();
    writer.field("a", "x\ty");
    writer.comma();
    writer.name("list");
    writer.strings(&vec!["1".to_string(), "2".to_string()]);
    writer.comma();
    writer.name("none");
    writer.open_array();
    writer.close_array();
    writer.comma();
    writer.string("k");
    writer.colon();
    writer.string("");
    writer.close_object();
    assert_eq!(
        writer.finish(),
        "{\"a\":\"x\\ty\",\"list\":[\"1\",\"2\"],\"none\":[],\"k\":\"\"}\n"
    );
}

#[test]
fn a_writer_without_a_piece_gives_an_empty_line() {
    assert_eq!(LineWriter::new().finish(), "\n");
}
