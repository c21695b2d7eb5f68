//! Splitting a raw source text into its metadata block and its body.
use vstd::prelude::*;

verus! {

/// True when the three characters starting at `i` are the delimiter `---`.
pub open spec fn delim_at(s: Seq<char>, i: int) -> bool {
    &&& 0 <= i
    &&& i + 3 <= s.len()
    &&& s[i] == '-'
    &&& s[i + 1] == '-'
    &&& s[i + 2] == '-'
}

/// The leftmost delimiter that starts at or after `from`.
pub open spec fn delim_from(s: Seq<char>, from: int) -> Option<int>
    decreases s.len() - from,
{
    if from < 0 || from + 3 > s.len() {
        None
    } else if delim_at(s, from) {
        Some(from)
    } else {
        delim_from(s, from + 1)
    }
}

/// The metadata block and the body of `s`: the second and third pieces of
/// `s` split on `---` at most twice, each empty where it is missing.
pub open spec fn front_matter_segments(s: Seq<char>) -> (Seq<char>, Seq<char>) {
    match delim_from(s, 0) {
        None => (Seq::empty(), Seq::empty()),
        Some(p) => match delim_from(s, p + 3) {
            None => (s.subrange(p + 3, s.len() as int), Seq::empty()),
            Some(q) => (s.subrange(p + 3, q), s.subrange(q + 3, s.len() as int)),
        },
    }
}

proof fn lemma_delim_from_found(s: Seq<char>, from: int)
    requires
        delim_from(s, from) is Some,
    ensures
        from <= delim_from(s, from)->0,
        delim_at(s, delim_from(s, from)->0),
        forall|j: int| from <= j < delim_from(s, from)->0 ==> !delim_at(s, j),
    decreases s.len() - from,
{
    if !delim_at(s, from) {
        lemma_delim_from_found(s, from + 1);
    }
}

/// The characters of `s`, in order.
fn chars_of(s: &str) -> (v: Vec<char>)
    ensures
        v@ == s@,
{
    let mut v: Vec<char> = Vec::new();
    for c in it: s.chars()
        invariant
            v@ == it.seq().take(it.index() as int),
    {
        v.push(c);
    }
    v
}

/// Finds the leftmost delimiter in `v` that starts at or after `from`.
fn find_delim(v: &Vec<char>, from: usize) -> (r: Option<usize>)
    ensures
        match r {
            Some(p) => delim_from(v@, from as int) == Some(p as int),
            None => delim_from(v@, from as int) is None,
        },
{
    let mut i: usize = from;
    while i < v.len() && v.len() - i >= 3
        invariant
            from <= i,
            delim_from(v@, from as int) == delim_from(v@, i as int),
        decreases v.len() - i,
    {
        if v[i] == '-' && v[i + 1] == '-' && v[i + 2] == '-' {
            return Some(i);
        }
        i = i + 1;
    }
    None
}

/// The metadata block and the body of a raw source text.
pub struct FrontMatterSplit {
    pub metadata: String,
    pub body: String,
}

/// Splits `content` on the delimiter `---` at most twice; the second piece
/// is the metadata block and the third the body, each empty where missing.
pub fn split_front_matter(content: &str) -> (r: FrontMatterSplit)
    ensures
        (r.metadata@, r.body@) == front_matter_segments(content@),
{
    let v = chars_of(content);
    let n = v.len();
    match find_delim(&v, 0) {
        None => FrontMatterSplit { metadata: String::new(), body: String::new() },
        Some(p) => {
            proof { lemma_delim_from_found(v@, 0); }
            match find_delim(&v, p + 3) {
                None => FrontMatterSplit {
                    metadata: content.substring_char(p + 3, n).to_string(),
                    body: String::new(),
                },
                Some(q) => {
                    proof { lemma_delim_from_found(v@, (p + 3) as int); }
                    FrontMatterSplit {
                        metadata: content.substring_char(p + 3, q).to_string(),
                        body: content.substring_char(q + 3, n).to_string(),
                    }
                },
            }
        },
    }
}

} // verus!
