//! Child processes as data: a fixed program, literal arguments and a complete environment.
//!
//! A plan never names a shell. It is run with exactly its environment, from the root
//! directory.

use crate::text;
use vstd::prelude::*;

verus! {

/// One child process.
pub struct ProcessPlan {
    /// Absolute path of the program.
    pub program: String,
    /// Arguments in order.
    pub arguments: Vec<String>,
    /// The whole environment.
    pub environment: Vec<(String, String)>,
}

/// One child process: program, arguments and environment.
pub struct ProcessView {
    /// Absolute path of the program.
    pub program: Seq<char>,
    /// Arguments in order.
    pub arguments: Seq<Seq<char>>,
    /// The whole environment.
    pub environment: Seq<(Seq<char>, Seq<char>)>,
}

/// The characters of a list of pairs.
pub open spec fn pairs(list: Seq<(String, String)>) -> Seq<(Seq<char>, Seq<char>)> {
    list.map_values(|p: (String, String)| (p.0@, p.1@))
}

impl View for ProcessPlan {
    type V = ProcessView;

    open spec fn view(&self) -> ProcessView {
        ProcessView {
            program: self.program@,
            arguments: text::texts(self.arguments@),
            environment: pairs(self.environment@),
        }
    }
}

/// One environment variable.
pub fn variable(name: &str, value: &str) -> (r: (String, String))
    ensures
        r.0@ == name@,
        r.1@ == value@,
{
    (name.to_owned(), value.to_owned())
}

/// Appends copies of `more` to `list`.
pub fn extend(list: &mut Vec<String>, more: &Vec<String>)
    ensures
        text::texts(final(list)@) == text::texts(old(list)@) + text::texts(more@),
{
    let ghost before = text::texts(list@);
    let ghost added = text::texts(more@);
    let mut i: usize = 0;
    assert(before + added.take(0) =~= before);
    while i < more.len()
        invariant
            i <= more.len(),
            added == text::texts(more@),
            text::texts(list@) == before + added.take(i as int),
        decreases more.len() - i,
    {
        let ghost now = text::texts(list@);
        list.push(more[i].clone());
        proof {
            assert(text::texts(list@) =~= now.push(more@[i as int]@));
            assert(added.take(i as int + 1) =~= added.take(i as int).push(more@[i as int]@));
            assert(text::texts(list@) =~= before + added.take(i as int + 1));
        }
        i += 1;
    }
    assert(added.take(i as int) =~= added);
}

} // verus!
