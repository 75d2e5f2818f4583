//! File system paths as a starting point and the components joined onto it, with
//! the decimal text of numbers that go into file names.

use vstd::prelude::*;
use std::path::PathBuf;

verus! {

#[verifier::external_type_specification]
#[verifier::external_body]
pub struct ExPathBuf(PathBuf);

/// Where a path begins: a path that was handed in, or a path written as text.
#[derive(Debug)]
pub enum PathStart {
    Given(PathBuf),
    Text(String),
}

/// A path: its start with each component joined onto it in turn.
#[derive(Debug)]
pub struct PlannedPath {
    pub start: PathStart,
    pub components: Vec<String>,
}

impl PlannedPath {
    /// The texts of the components, in order.
    pub open spec fn parts(self) -> Seq<Seq<char>> {
        self.components@.map_values(|c: String| c@)
    }

    /// The path starts at the given path `p`.
    pub open spec fn starts_at(self, p: PathBuf) -> bool {
        self.start == PathStart::Given(p)
    }

    /// The path starts at the path written `t`.
    pub open spec fn starts_at_text(self, t: Seq<char>) -> bool {
        self.start matches PathStart::Text(s) && s@ == t
    }

    /// The path as a `PathBuf`: the start with `PathBuf::join` of each component.
    pub fn to_path_buf(&self) -> (r: PathBuf)
        ensures
            r == joined_all(start_path(self.start), self.parts()),
    {
        let mut p = match &self.start {
            PathStart::Given(p) => clone_path(p),
            PathStart::Text(t) => path_from_text(t.as_str()),
        };
        let n = self.components.len();
        let mut i: usize = 0;
        while i < n
            invariant
                n == self.components@.len(),
                0 <= i <= n,
                p == joined_all(start_path(self.start), self.parts().subrange(0, i as int)),
            decreases n - i,
        {
            proof {
                assert(self.parts().subrange(0, i + 1).drop_last() =~= self.parts().subrange(0, i as int));
            }
            p = join_path(&p, self.components[i].as_str());
            i = i + 1;
        }
        assert(self.parts().subrange(0, n as int) =~= self.parts());
        p
    }
}

/// What `PathBuf::from` gives for the text `t`.
pub uninterp spec fn path_of_text(t: Seq<char>) -> PathBuf;

/// What `Path::join` gives for `base` and the component `part`.
pub uninterp spec fn path_joined(base: PathBuf, part: Seq<char>) -> PathBuf;

/// The path that a start stands for.
pub open spec fn start_path(start: PathStart) -> PathBuf {
    match start {
        PathStart::Given(p) => p,
        PathStart::Text(t) => path_of_text(t@),
    }
}

/// `base` with each of `parts` joined onto it in turn.
pub open spec fn joined_all(base: PathBuf, parts: Seq<Seq<char>>) -> PathBuf
    decreases parts.len(),
{
    if parts.len() == 0 {
        base
    } else {
        path_joined(joined_all(base, parts.drop_last()), parts.last())
    }
}

/// A path that starts at `start` and has the given components.
pub fn planned(start: PathStart, parts: Vec<String>) -> (r: PlannedPath)
    ensures
        r.start == start,
        r.components == parts,
{
    PlannedPath { start, components: parts }
}

/// `PathBuf::clone`: the same path.
#[verifier::external_body]
pub fn clone_path(p: &PathBuf) -> (r: PathBuf)
    ensures
        r == *p,
{
    p.clone()
}

/// `PathBuf::from` a string slice: the path written `t` (named `path_of_text`).
#[verifier::external_body]
fn path_from_text(t: &str) -> (r: PathBuf)
    ensures
        r == path_of_text(t@),
{
    PathBuf::from(t)
}

/// `Path::join`: `base` with `part` adjoined (named `path_joined`).
#[verifier::external_body]
fn join_path(base: &PathBuf, part: &str) -> (r: PathBuf)
    ensures
        r == path_joined(*base, part@),
{
    base.join(part)
}

/// The decimal digit `d` as a char.
pub open spec fn digit_char(d: int) -> char {
    seq!['0', '1', '2', '3', '4', '5', '6', '7', '8', '9'][d]
}

/// The decimal text of `n`, with no leading zero.
pub open spec fn decimal(n: nat) -> Seq<char>
    decreases n,
{
    if n < 10 {
        seq![digit_char(n as int)]
    } else {
        decimal(n / 10) + seq![digit_char((n % 10) as int)]
    }
}

fn digit_text(d: u32) -> (r: &'static str)
    requires
        d < 10,
    ensures
        r@ == seq![digit_char(d as int)],
{
    proof {
        reveal_strlit("0");
        reveal_strlit("1");
        reveal_strlit("2");
        reveal_strlit("3");
        reveal_strlit("4");
        reveal_strlit("5");
        reveal_strlit("6");
        reveal_strlit("7");
        reveal_strlit("8");
        reveal_strlit("9");
    }
    let r = if d == 0 {
        "0"
    } else if d == 1 {
        "1"
    } else if d == 2 {
        "2"
    } else if d == 3 {
        "3"
    } else if d == 4 {
        "4"
    } else if d == 5 {
        "5"
    } else if d == 6 {
        "6"
    } else if d == 7 {
        "7"
    } else if d == 8 {
        "8"
    } else {
        "9"
    };
    assert(r@ =~= seq![digit_char(d as int)]);
    r
}

/// The decimal text of `n`.
pub fn decimal_text(n: u32) -> (r: String)
    ensures
        r@ == decimal(n as nat),
    decreases n,
{
    if n < 10 {
        String::from_str(digit_text(n))
    } else {
        let high = decimal_text(n / 10);
        let r = high.concat(digit_text(n % 10));
        r
    }
}

} // verus!
