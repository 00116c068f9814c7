//! Writing one line of the protocol: the pieces of a JSON object, put one
//! behind the other, every string in the form that `serde_json` gives it.

use vstd::prelude::*;
use crate::json::{quoted, Json};

verus! {

/// A line in the making: the text so far.
pub struct Draft {
    pub text: Seq<char>,
}

impl Draft {
    /// Nothing written yet.
    pub open spec fn start() -> Draft {
        Draft { text: Seq::empty() }
    }

    /// The draft with a piece of punctuation behind it.
    pub open spec fn raw(self, piece: Seq<char>) -> Draft {
        Draft { text: self.text + piece }
    }

    /// The draft with the JSON string literal of `value` behind it.
    pub open spec fn string(self, value: Seq<char>) -> Draft {
        Draft { text: self.text + quoted(value) }
    }

    /// The draft with a member behind it whose value is a string.
    pub open spec fn field(self, name: Seq<char>, value: Seq<char>) -> Draft {
        self.string(name).raw(seq![':']).string(value)
    }

    /// The draft with the name of a member and its colon behind it.
    pub open spec fn name(self, name: Seq<char>) -> Draft {
        self.string(name).raw(seq![':'])
    }

    /// The draft with the given strings behind it, a comma between two of
    /// them.
    pub open spec fn string_items(self, values: Seq<Seq<char>>) -> Draft
        decreases values.len(),
    {
        if values.len() == 0 {
            self
        } else if values.len() == 1 {
            self.string(values[0])
        } else {
            self.string_items(values.drop_last()).raw(seq![',']).string(values.last())
        }
    }

    /// The draft with an array of strings behind it.
    pub open spec fn strings(self, values: Seq<Seq<char>>) -> Draft {
        self.raw(seq!['[']).string_items(values).raw(seq![']'])
    }
}

/// A text that holds no line break.
pub open spec fn is_one_line(text: Seq<char>) -> bool {
    forall|i: int| 0 <= i < text.len() ==> text[i] != '\n'
}

/// The writer of one line: the text so far.
pub struct LineWriter {
    pub text: String,
}

impl View for LineWriter {
    type V = Draft;

    open spec fn view(&self) -> Draft {
        Draft { text: self.text@ }
    }
}

impl LineWriter {
    /// A writer that has written nothing.
    pub fn new() -> (r: Self)
        ensures
            r@ == Draft::start(),
            is_one_line(r.text@),
    {
        LineWriter { text: String::new() }
    }

    /// Writes one character of punctuation.
    fn punctuation(&mut self, piece: &str, Ghost(c): Ghost<char>)
        requires
            piece@ == seq![c],
            c != '\n',
        ensures
            final(self)@ == old(self)@.raw(seq![c]),
            is_one_line(old(self).text@) ==> is_one_line(final(self).text@),
    {
        self.text.append(piece);
    }

    /// Writes `{`.
    pub fn open_object(&mut self)
        ensures
            final(self)@ == old(self)@.raw(seq!['{']),
            is_one_line(old(self).text@) ==> is_one_line(final(self).text@),
    {
        proof {
            reveal_strlit("{");
            assert("{"@ =~= seq!['{']);
        }
        self.punctuation("{", Ghost('{'));
    }

    /// Writes `}`.
    pub fn close_object(&mut self)
        ensures
            final(self)@ == old(self)@.raw(seq!['}']),
            is_one_line(old(self).text@) ==> is_one_line(final(self).text@),
    {
        proof {
            reveal_strlit("}");
            assert("}"@ =~= seq!['}']);
        }
        self.punctuation("}", Ghost('}'));
    }

    /// Writes `[`.
    pub fn open_array(&mut self)
        ensures
            final(self)@ == old(self)@.raw(seq!['[']),
            is_one_line(old(self).text@) ==> is_one_line(final(self).text@),
    {
        proof {
            reveal_strlit("[");
            assert("["@ =~= seq!['[']);
        }
        self.punctuation("[", Ghost('['));
    }

    /// Writes `]`.
    pub fn close_array(&mut self)
        ensures
            final(self)@ == old(self)@.raw(seq![']']),
            is_one_line(old(self).text@) ==> is_one_line(final(self).text@),
    {
        proof {
            reveal_strlit("]");
            assert("]"@ =~= seq![']']);
        }
        self.punctuation("]", Ghost(']'));
    }

    /// Writes `,`.
    pub fn comma(&mut self)
        ensures
            final(self)@ == old(self)@.raw(seq![',']),
            is_one_line(old(self).text@) ==> is_one_line(final(self).text@),
    {
        proof {
            reveal_strlit(",");
            assert(","@ =~= seq![',']);
        }
        self.punctuation(",", Ghost(','));
    }

    /// Writes `:`.
    pub fn colon(&mut self)
        ensures
            final(self)@ == old(self)@.raw(seq![':']),
            is_one_line(old(self).text@) ==> is_one_line(final(self).text@),
    {
        proof {
            reveal_strlit(":");
            assert(":"@ =~= seq![':']);
        }
        self.punctuation(":", Ghost(':'));
    }

    /// Writes a string as its JSON string literal.
    pub fn string(&mut self, value: &str)
        ensures
            final(self)@ == old(self)@.string(value@),
            is_one_line(old(self).text@) ==> is_one_line(final(self).text@),
    {
        let literal = Json::quote(value);
        self.text.append(literal.as_str());
    }

    /// Writes the name of a member and its colon.
    pub fn name(&mut self, name: &str)
        ensures
            final(self)@ == old(self)@.name(name@),
            is_one_line(old(self).text@) ==> is_one_line(final(self).text@),
    {
        self.string(name);
        self.colon();
    }

    /// Writes a member whose value is a string.
    pub fn field(&mut self, name: &str, value: &str)
        ensures
            final(self)@ == old(self)@.field(name@, value@),
            is_one_line(old(self).text@) ==> is_one_line(final(self).text@),
    {
        self.string(name);
        self.colon();
        self.string(value);
    }

    /// Writes an array of strings.
    pub fn strings(&mut self, values: &Vec<String>)
        ensures
            final(self)@ == old(self)@.strings(crate::types::texts(values@)),
            is_one_line(old(self).text@) ==> is_one_line(final(self).text@),
    {
        self.open_array();
        let ghost all = crate::types::texts(values@);
        let ghost opened = self@;
        let ghost clean = is_one_line(self.text@);
        let mut i: usize = 0;
        while i < values.len()
            invariant
                i <= values.len(),
                all == crate::types::texts(values@),
                self@ == opened.string_items(all.take(i as int)),
                clean ==> is_one_line(self.text@),
            decreases values.len() - i,
        {
            assert(all.take(i as int + 1).drop_last() =~= all.take(i as int));
            if i > 0 {
                self.comma();
            }
            self.string(values[i].as_str());
            i = i + 1;
        }
        assert(all.take(values.len() as int) =~= all);
        self.close_array();
    }

    /// The line that was written, closed by a line break.
    pub fn finish(self) -> (r: String)
        ensures
            r@ == self@.text + seq!['\n'],
    {
        let mut line = self.text;
        proof {
            reveal_strlit("\n");
            assert("\n"@ =~= seq!['\n']);
        }
        line.append("\n");
        line
    }
}

} // verus!
