use media_worker::lookup::find_first;
use media_worker::types::{JobRecord, JobStatus};

fn job(id: &str) -> JobRecord {
    JobRecord {
        job_id: id.to_string(),
        file_name: String::new(),
        input_path: String::new(),
        output_path: None,
        status: JobStatus::Queued,
        progress_pct: 0,
        error: None,
    }
}

#[test]
fn the_first_item_with_the_key_is_found() {
    let jobs = vec![job("a"), job("b"), job("a"), job("c")];
    assert_eq!(find_first(&jobs, "a"), Some(0));
    assert_eq!(find_first(&jobs, "b"), Some(1));
    assert_eq!(find_first(&jobs, "c"), Some(3));
    assert_eq!(find_first(&jobs, "d"), None);
    assert_eq!(find_first(&jobs, ""), None);
    assert_eq!(find_first(&Vec::<JobRecord>::new(), "a"), None);
}
