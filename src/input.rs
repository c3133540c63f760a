use vstd::prelude::*;

use crate::text::chars_of;

verus! {

/// An input, loaded and told apart.
pub enum InputType {
    MmlString(String),
    MmlFile(String),
    MidFile(Vec<u8>),
    JsonFile(String),
}

/// The kinds of file that an input path may name.
#[derive(PartialEq, Eq, Structural, Clone, Copy)]
pub enum FileKind {
    Mml,
    Mid,
    Json,
}

/// What must be done to load an input.
pub enum InputRequest {
    /// No file: the input is MML text itself.
    Inline,
    /// Read the file as UTF-8 text.
    ReadText(FileKind),
    /// Read the file as raw bytes.
    ReadBytes(FileKind),
}

pub open spec fn is_sep(c: char) -> bool {
    c == '/' || c == '\\'
}

/// `d` is the index of the dot that starts the extension of path `s`: the last
/// dot of the last path segment, where it is not that segment's first character.
pub open spec fn ext_dot(s: Seq<char>, d: int) -> bool {
    &&& 0 < d < s.len()
    &&& s[d] == '.'
    &&& !is_sep(s[d - 1])
    &&& forall|j: int| d < j < s.len() ==> s[j] != '.' && !is_sep(s[j])
}

/// `e` is `lower`, with any letter in either case (`upper` is `lower` upper-cased).
pub open spec fn same_ignoring_case(e: Seq<char>, lower: Seq<char>, upper: Seq<char>) -> bool {
    &&& e.len() == lower.len()
    &&& e.len() == upper.len()
    &&& forall|i: int| 0 <= i < e.len() ==> e[i] == lower[i] || e[i] == upper[i]
}

/// The file kind that an extension (without its dot) stands for.
pub open spec fn kind_of_ext(e: Seq<char>) -> Option<FileKind> {
    if same_ignoring_case(e, seq!['m', 'm', 'l'], seq!['M', 'M', 'L']) {
        Some(FileKind::Mml)
    } else if same_ignoring_case(e, seq!['m', 'i', 'd'], seq!['M', 'I', 'D']) {
        Some(FileKind::Mid)
    } else if same_ignoring_case(e, seq!['j', 's', 'o', 'n'], seq!['J', 'S', 'O', 'N']) {
        Some(FileKind::Json)
    } else {
        None
    }
}

/// The file kind that path `s` names by its extension, if it has a recognized one.
pub open spec fn kind_of_path(s: Seq<char>) -> Option<FileKind> {
    if exists|d: int| ext_dot(s, d) {
        let d = choose|d: int| ext_dot(s, d);
        kind_of_ext(s.subrange(d + 1, s.len() as int))
    } else {
        None
    }
}

/// The request that loads input `s`: a read for a recognized extension, else none.
pub open spec fn request_of(s: Seq<char>) -> InputRequest {
    match kind_of_path(s) {
        Some(FileKind::Mid) => InputRequest::ReadBytes(FileKind::Mid),
        Some(k) => InputRequest::ReadText(k),
        None => InputRequest::Inline,
    }
}

proof fn lemma_ext_dot_unique(s: Seq<char>, d1: int, d2: int)
    requires
        ext_dot(s, d1),
        ext_dot(s, d2),
    ensures
        d1 == d2,
{
    if d1 < d2 {
        assert(s[d2] != '.');
    } else if d2 < d1 {
        assert(s[d1] != '.');
    }
}

fn same_ignoring_case_exec(e: &Vec<char>, from: usize, lower: &[char], upper: &[char]) -> (r: bool)
    requires
        from <= e@.len(),
    ensures
        r == same_ignoring_case(e@.subrange(from as int, e@.len() as int), lower@, upper@),
{
    let n = e.len() - from;
    if n != lower.len() || n != upper.len() {
        return false;
    }
    let ghost t = e@.subrange(from as int, e@.len() as int);
    let el = e.len();
    let mut i: usize = 0;
    while i < n
        invariant
            el == e@.len(),
            n == t.len(),
            n == lower@.len(),
            n == upper@.len(),
            from + n == e@.len(),
            t == e@.subrange(from as int, e@.len() as int),
            i <= n,
            forall|j: int| 0 <= j < i ==> t[j] == lower@[j] || t[j] == upper@[j],
        decreases n - i,
    {
        let c = e[from + i];
        if c != lower[i] && c != upper[i] {
            return false;
        }
        i = i + 1;
    }
    true
}

fn kind_of_ext_exec(e: &Vec<char>, from: usize) -> (r: Option<FileKind>)
    requires
        from <= e@.len(),
    ensures
        r == kind_of_ext(e@.subrange(from as int, e@.len() as int)),
{
    let ml: [char; 3] = ['m', 'm', 'l'];
    let mu: [char; 3] = ['M', 'M', 'L'];
    let dl: [char; 3] = ['m', 'i', 'd'];
    let du: [char; 3] = ['M', 'I', 'D'];
    let jl: [char; 4] = ['j', 's', 'o', 'n'];
    let ju: [char; 4] = ['J', 'S', 'O', 'N'];
    assert(ml@ == seq!['m', 'm', 'l']);
    assert(mu@ == seq!['M', 'M', 'L']);
    assert(dl@ == seq!['m', 'i', 'd']);
    assert(du@ == seq!['M', 'I', 'D']);
    assert(jl@ == seq!['j', 's', 'o', 'n']);
    assert(ju@ == seq!['J', 'S', 'O', 'N']);
    if same_ignoring_case_exec(e, from, ml.as_slice(), mu.as_slice()) {
        Some(FileKind::Mml)
    } else if same_ignoring_case_exec(e, from, dl.as_slice(), du.as_slice()) {
        Some(FileKind::Mid)
    } else if same_ignoring_case_exec(e, from, jl.as_slice(), ju.as_slice()) {
        Some(FileKind::Json)
    } else {
        None
    }
}

/// The file kind that `input` names by its extension (case-insensitive), or
/// `None` when it has no extension or one that is not recognized.
pub fn file_kind_of(input: &str) -> (r: Option<FileKind>)
    ensures
        r == kind_of_path(input@),
{
    let s = chars_of(input);
    let n = s.len();
    let mut i: usize = n;
    while i > 0
        invariant
            s@ == input@,
            n == s@.len(),
            i <= n,
            forall|j: int| i <= j < n ==> s@[j] != '.' && !is_sep(s@[j]),
        ensures
            i == 0 || s@[i - 1] == '.' || is_sep(s@[i - 1]),
        decreases i,
    {
        let c = s[i - 1];
        if c == '.' || c == '/' || c == '\\' {
            break;
        }
        i = i - 1;
    }
    // Either i == 0, or s[i - 1] is the last dot or separator.
    if i >= 2 && s[i - 1] == '.' && s[i - 2] != '/' && s[i - 2] != '\\' {
        let d: usize = i - 1;
        assert(ext_dot(input@, d as int));
        proof {
            assert forall|d2: int| ext_dot(input@, d2) implies d2 == d by {
                lemma_ext_dot_unique(input@, d as int, d2);
            }
        }
        kind_of_ext_exec(&s, i)
    } else {
        assert forall|d: int| !ext_dot(input@, d) by {
            if ext_dot(input@, d) {
                if d < i - 1 {
                    assert(s@[i - 1] == '.' || is_sep(s@[i - 1]));
                    assert(d < i - 1 < n);
                }
            }
        }
        None
    }
}

/// What loading `input` takes: a file read for a path with a recognized
/// extension, never a fall-back to MML text; otherwise no file access.
pub fn classify_input(input: &str) -> (r: InputRequest)
    ensures
        r == request_of(input@),
{
    match file_kind_of(input) {
        Some(FileKind::Mid) => InputRequest::ReadBytes(FileKind::Mid),
        Some(k) => InputRequest::ReadText(k),
        None => InputRequest::Inline,
    }
}

/// Classification is total and never falls back: a path with a recognized
/// extension is always loaded from its file (bytes for MIDI, text otherwise),
/// and any other input is MML text, with no file access.
pub proof fn lemma_classification_total(s: Seq<char>)
    ensures
        request_of(s) is Inline <==> kind_of_path(s) is None,
        kind_of_path(s) == Some(FileKind::Mid) ==> request_of(s) == InputRequest::ReadBytes(
            FileKind::Mid,
        ),
        kind_of_path(s) == Some(FileKind::Mml) ==> request_of(s) == InputRequest::ReadText(
            FileKind::Mml,
        ),
        kind_of_path(s) == Some(FileKind::Json) ==> request_of(s) == InputRequest::ReadText(
            FileKind::Json,
        ),
{
}

/// `a` and `b` are the same character, or the same ASCII letter in two cases.
pub open spec fn same_but_case(a: char, b: char) -> bool {
    ||| a == b
    ||| ('A' <= a <= 'Z' && a as u32 + 32 == b as u32)
    ||| ('A' <= b <= 'Z' && b as u32 + 32 == a as u32)
}

proof fn lemma_ext_dot_same_but_case(s1: Seq<char>, s2: Seq<char>, d: int)
    requires
        s1.len() == s2.len(),
        forall|j: int| 0 <= j < s1.len() ==> same_but_case(#[trigger] s1[j], s2[j]),
        ext_dot(s1, d),
    ensures
        ext_dot(s2, d),
{
    assert forall|j: int| d < j < s2.len() implies s2[j] != '.' && !is_sep(s2[j]) by {
        assert(same_but_case(s1[j], s2[j]));
    }
    assert(same_but_case(s1[d], s2[d]));
    assert(same_but_case(s1[d - 1], s2[d - 1]));
}

proof fn lemma_ext_same_but_case(e1: Seq<char>, e2: Seq<char>, lower: Seq<char>, upper: Seq<char>)
    requires
        e1.len() == e2.len(),
        forall|j: int| 0 <= j < e1.len() ==> same_but_case(#[trigger] e1[j], e2[j]),
        lower.len() == upper.len(),
        forall|j: int|
            0 <= j < lower.len() ==> 'a' <= #[trigger] lower[j] <= 'z' && upper[j] as u32 + 32
                == lower[j] as u32,
        same_ignoring_case(e1, lower, upper),
    ensures
        same_ignoring_case(e2, lower, upper),
{
    assert forall|i: int| 0 <= i < e2.len() implies e2[i] == lower[i] || e2[i] == upper[i] by {
        assert(same_but_case(e1[i], e2[i]));
        assert('a' <= lower[i] <= 'z');
        vstd::utf8::char_u32_cast(e2[i], e2[i] as u32);
        vstd::utf8::char_u32_cast(upper[i], upper[i] as u32);
        vstd::utf8::char_u32_cast(lower[i], lower[i] as u32);
    }
}

/// The case of ASCII letters does not matter: two paths that differ only in
/// it (`x.JSON`, `x.Json`, `x.json`) name the same kind of file.
pub proof fn lemma_extension_case_insensitive(s1: Seq<char>, s2: Seq<char>)
    requires
        s1.len() == s2.len(),
        forall|j: int| 0 <= j < s1.len() ==> same_but_case(#[trigger] s1[j], s2[j]),
    ensures
        kind_of_path(s1) == kind_of_path(s2),
{
    assert forall|j: int| 0 <= j < s2.len() implies same_but_case(#[trigger] s2[j], s1[j]) by {
        assert(same_but_case(s1[j], s2[j]));
    }
    if exists|d: int| ext_dot(s1, d) {
        let d = choose|d: int| ext_dot(s1, d);
        lemma_ext_dot_same_but_case(s1, s2, d);
        assert forall|d2: int| ext_dot(s2, d2) implies d2 == d by {
            lemma_ext_dot_unique(s2, d, d2);
        }
        let e1 = s1.subrange(d + 1, s1.len() as int);
        let e2 = s2.subrange(d + 1, s2.len() as int);
        assert forall|j: int| 0 <= j < e1.len() implies same_but_case(#[trigger] e1[j], e2[j]) by {
            assert(same_but_case(s1[d + 1 + j], s2[d + 1 + j]));
        }
        assert forall|j: int| 0 <= j < e2.len() implies same_but_case(#[trigger] e2[j], e1[j]) by {
            assert(same_but_case(s2[d + 1 + j], s1[d + 1 + j]));
        }
        let ml = seq!['m', 'm', 'l'];
        let mu = seq!['M', 'M', 'L'];
        let dl = seq!['m', 'i', 'd'];
        let du = seq!['M', 'I', 'D'];
        let jl = seq!['j', 's', 'o', 'n'];
        let ju = seq!['J', 'S', 'O', 'N'];
        if same_ignoring_case(e1, ml, mu) {
            lemma_ext_same_but_case(e1, e2, ml, mu);
        }
        if same_ignoring_case(e2, ml, mu) {
            lemma_ext_same_but_case(e2, e1, ml, mu);
        }
        if same_ignoring_case(e1, dl, du) {
            lemma_ext_same_but_case(e1, e2, dl, du);
        }
        if same_ignoring_case(e2, dl, du) {
            lemma_ext_same_but_case(e2, e1, dl, du);
        }
        if same_ignoring_case(e1, jl, ju) {
            lemma_ext_same_but_case(e1, e2, jl, ju);
        }
        if same_ignoring_case(e2, jl, ju) {
            lemma_ext_same_but_case(e2, e1, jl, ju);
        }
    } else {
        assert forall|d: int| !ext_dot(s2, d) by {
            if ext_dot(s2, d) {
                lemma_ext_dot_same_but_case(s2, s1, d);
            }
        }
    }
}

} // verus!
