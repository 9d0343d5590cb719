//! Structured model output. The structured endpoints require the model's
//! raw text to be valid JSON of exactly one of two shapes: an object with a
//! `questions` array of strings, or an object with a `filename` string and
//! a `flashcards` array of objects each holding a `front` and a `back`
//! string. Members may come in either order inside an object, whitespace is
//! allowed wherever JSON allows it, and strings may use the single-letter
//! escapes; anything else is rejected, with no partial or lenient reading.

use vstd::prelude::*;

use crate::errors::RigError;
use crate::strings::{chars_eq_str, chars_to_string, str_to_chars};

verus! {

/// One flashcard: a question on the front, the answer on the back.
#[derive(Debug)]
pub struct Flashcard {
    pub front: String,
    pub back: String,
}

impl View for Flashcard {
    type V = (Seq<char>, Seq<char>);

    open spec fn view(&self) -> (Seq<char>, Seq<char>) {
        (self.front@, self.back@)
    }
}

impl DeepView for Flashcard {
    type V = (Seq<char>, Seq<char>);

    open spec fn deep_view(&self) -> (Seq<char>, Seq<char>) {
        self.view()
    }
}

/// JSON insignificant whitespace.
pub open spec fn is_json_ws(c: char) -> bool {
    c == ' ' || c == '\n' || c == '\r' || c == '\t'
}

/// The first position at or after `i` holding no whitespace.
pub open spec fn spec_skip_ws(s: Seq<char>, i: int) -> int
    decreases s.len() - i,
{
    if 0 <= i < s.len() && is_json_ws(s[i]) {
        spec_skip_ws(s, i + 1)
    } else {
        i
    }
}

proof fn lemma_skip_ws_bounds(s: Seq<char>, i: int)
    requires
        0 <= i <= s.len(),
    ensures
        i <= spec_skip_ws(s, i) <= s.len(),
    decreases s.len() - i,
{
    if i < s.len() && is_json_ws(s[i]) {
        lemma_skip_ws_bounds(s, i + 1);
    }
}

/// What a single-letter escape stands for.
pub open spec fn spec_unescape(c: char) -> Option<char> {
    if c == '"' {
        Some('"')
    } else if c == '\\' {
        Some('\\')
    } else if c == '/' {
        Some('/')
    } else if c == 'n' {
        Some('\n')
    } else if c == 't' {
        Some('\t')
    } else if c == 'r' {
        Some('\r')
    } else if c == 'b' {
        Some('\u{0008}')
    } else if c == 'f' {
        Some('\u{000C}')
    } else {
        None
    }
}

/// The rest of a JSON string after its opening quote: the decoded content
/// and the position after the closing quote. Unescaped control characters,
/// unknown escapes and a missing closing quote are rejected.
pub open spec fn spec_string_body(s: Seq<char>, i: int) -> Option<(Seq<char>, int)>
    decreases s.len() - i,
{
    if i < 0 || i >= s.len() {
        None
    } else if s[i] == '"' {
        Some((Seq::empty(), i + 1))
    } else if s[i] == '\\' {
        if i + 1 < s.len() {
            match spec_unescape(s[i + 1]) {
                Some(c) => match spec_string_body(s, i + 2) {
                    Some((rest, j)) => Some((seq![c] + rest, j)),
                    None => None,
                },
                None => None,
            }
        } else {
            None
        }
    } else if (s[i] as u32) < 0x20 {
        None
    } else {
        match spec_string_body(s, i + 1) {
            Some((rest, j)) => Some((seq![s[i]] + rest, j)),
            None => None,
        }
    }
}

proof fn lemma_string_body_bounds(s: Seq<char>, i: int)
    ensures
        spec_string_body(s, i) matches Some((v, j)) ==> i < j <= s.len(),
    decreases s.len() - i,
{
    if 0 <= i < s.len() {
        if s[i] == '\\' {
            if i + 1 < s.len() {
                lemma_string_body_bounds(s, i + 2);
            }
        } else {
            lemma_string_body_bounds(s, i + 1);
        }
    }
}

/// A JSON string at `i`: its decoded content and the position after it.
pub open spec fn spec_parse_string(s: Seq<char>, i: int) -> Option<(Seq<char>, int)> {
    if 0 <= i < s.len() && s[i] == '"' {
        spec_string_body(s, i + 1)
    } else {
        None
    }
}

proof fn lemma_parse_string_bounds(s: Seq<char>, i: int)
    ensures
        spec_parse_string(s, i) matches Some((v, j)) ==> i < j <= s.len(),
{
    if 0 <= i < s.len() && s[i] == '"' {
        lemma_string_body_bounds(s, i + 1);
    }
}

/// After a key string: whitespace, a colon, whitespace, then the position
/// of the member's value.
pub open spec fn spec_after_colon(s: Seq<char>, i: int) -> Option<int> {
    let j = spec_skip_ws(s, i);
    if j < s.len() && s[j] == ':' {
        Some(spec_skip_ws(s, j + 1))
    } else {
        None
    }
}

proof fn lemma_after_colon_bounds(s: Seq<char>, i: int)
    requires
        0 <= i <= s.len(),
    ensures
        spec_after_colon(s, i) matches Some(p) ==> i < p <= s.len(),
{
    lemma_skip_ws_bounds(s, i);
    let j = spec_skip_ws(s, i);
    if j < s.len() && s[j] == ':' {
        lemma_skip_ws_bounds(s, j + 1);
    }
}

/// The remaining elements of an array of strings, starting just after an
/// element: whitespace, then either the closing bracket or a comma and the
/// next element.
pub open spec fn spec_string_items(s: Seq<char>, i: int, acc: Seq<Seq<char>>) -> Option<
    (Seq<Seq<char>>, int),
>
    decreases s.len() - i,
        when 0 <= i <= s.len()
        via spec_string_items_dec
{
    let j = spec_skip_ws(s, i);
    if j < s.len() && s[j] == ']' {
        Some((acc, j + 1))
    } else if j < s.len() && s[j] == ',' {
        let k = spec_skip_ws(s, j + 1);
        match spec_parse_string(s, k) {
            Some((e, m)) => spec_string_items(s, m, acc.push(e)),
            None => None,
        }
    } else {
        None
    }
}

#[via_fn]
proof fn spec_string_items_dec(s: Seq<char>, i: int, acc: Seq<Seq<char>>) {
    lemma_skip_ws_bounds(s, i);
    let j = spec_skip_ws(s, i);
    if j < s.len() && s[j] == ',' {
        lemma_skip_ws_bounds(s, j + 1);
        let k = spec_skip_ws(s, j + 1);
        lemma_parse_string_bounds(s, k);
    }
}

proof fn lemma_string_items_bounds(s: Seq<char>, i: int, acc: Seq<Seq<char>>)
    requires
        0 <= i <= s.len(),
    ensures
        spec_string_items(s, i, acc) matches Some((v, j)) ==> i < j <= s.len(),
    decreases s.len() - i,
{
    lemma_skip_ws_bounds(s, i);
    let j = spec_skip_ws(s, i);
    if j < s.len() && s[j] == ',' {
        lemma_skip_ws_bounds(s, j + 1);
        let k = spec_skip_ws(s, j + 1);
        lemma_parse_string_bounds(s, k);
        match spec_parse_string(s, k) {
            Some((e, m)) => {
                lemma_string_items_bounds(s, m, acc.push(e));
            },
            None => {},
        }
    }
}

/// A JSON array of strings at `i`: the decoded elements in order, and the
/// position after the closing bracket.
pub open spec fn spec_parse_string_array(s: Seq<char>, i: int) -> Option<(Seq<Seq<char>>, int)> {
    if 0 <= i < s.len() && s[i] == '[' {
        let j = spec_skip_ws(s, i + 1);
        if j < s.len() && s[j] == ']' {
            Some((Seq::empty(), j + 1))
        } else {
            match spec_parse_string(s, j) {
                Some((e, m)) => spec_string_items(s, m, seq![e]),
                None => None,
            }
        }
    } else {
        None
    }
}

proof fn lemma_parse_string_array_bounds(s: Seq<char>, i: int)
    ensures
        spec_parse_string_array(s, i) matches Some((v, j)) ==> i < j <= s.len(),
{
    if 0 <= i < s.len() && s[i] == '[' {
        lemma_skip_ws_bounds(s, i + 1);
        let j = spec_skip_ws(s, i + 1);
        if !(j < s.len() && s[j] == ']') {
            lemma_parse_string_bounds(s, j);
            match spec_parse_string(s, j) {
                Some((e, m)) => {
                    lemma_string_items_bounds(s, m, seq![e]);
                },
                None => {},
            }
        }
    }
}

/// A flashcard object at `i`: braces around a `front` member and a `back`
/// member, in either order, both strings.
pub open spec fn spec_parse_card(s: Seq<char>, i: int) -> Option<((Seq<char>, Seq<char>), int)> {
    if 0 <= i < s.len() && s[i] == '{' {
        let j = spec_skip_ws(s, i + 1);
        match spec_parse_string(s, j) {
            Some((k1, m1)) => match spec_after_colon(s, m1) {
                Some(p1) => match spec_parse_string(s, p1) {
                    Some((v1, m2)) => {
                        let t = spec_skip_ws(s, m2);
                        if t < s.len() && s[t] == ',' {
                            let u = spec_skip_ws(s, t + 1);
                            match spec_parse_string(s, u) {
                                Some((k2, m3)) => match spec_after_colon(s, m3) {
                                    Some(p2) => match spec_parse_string(s, p2) {
                                        Some((v2, m4)) => {
                                            let w = spec_skip_ws(s, m4);
                                            if w < s.len() && s[w] == '}' {
                                                if k1 == "front"@ && k2 == "back"@ {
                                                    Some(((v1, v2), w + 1))
                                                } else if k1 == "back"@ && k2 == "front"@ {
                                                    Some(((v2, v1), w + 1))
                                                } else {
                                                    None
                                                }
                                            } else {
                                                None
                                            }
                                        },
                                        None => None,
                                    },
                                    None => None,
                                },
                                None => None,
                            }
                        } else {
                            None
                        }
                    },
                    None => None,
                },
                None => None,
            },
            None => None,
        }
    } else {
        None
    }
}

proof fn lemma_parse_card_bounds(s: Seq<char>, i: int)
    ensures
        spec_parse_card(s, i) matches Some((v, j)) ==> i < j <= s.len(),
{
    if 0 <= i < s.len() && s[i] == '{' {
        lemma_skip_ws_bounds(s, i + 1);
        let j = spec_skip_ws(s, i + 1);
        lemma_parse_string_bounds(s, j);
        if let Some((k1, m1)) = spec_parse_string(s, j) {
            lemma_after_colon_bounds(s, m1);
            if let Some(p1) = spec_after_colon(s, m1) {
                lemma_parse_string_bounds(s, p1);
                if let Some((v1, m2)) = spec_parse_string(s, p1) {
                    lemma_skip_ws_bounds(s, m2);
                    let t = spec_skip_ws(s, m2);
                    if t < s.len() && s[t] == ',' {
                        lemma_skip_ws_bounds(s, t + 1);
                        let u = spec_skip_ws(s, t + 1);
                        lemma_parse_string_bounds(s, u);
                        if let Some((k2, m3)) = spec_parse_string(s, u) {
                            lemma_after_colon_bounds(s, m3);
                            if let Some(p2) = spec_after_colon(s, m3) {
                                lemma_parse_string_bounds(s, p2);
                                if let Some((v2, m4)) = spec_parse_string(s, p2) {
                                    lemma_skip_ws_bounds(s, m4);
                                }
                            }
                        }
                    }
                }
            }
        }
    }
}

/// The remaining elements of an array of flashcards, starting just after
/// an element.
pub open spec fn spec_card_items(s: Seq<char>, i: int, acc: Seq<(Seq<char>, Seq<char>)>) -> Option<
    (Seq<(Seq<char>, Seq<char>)>, int),
>
    decreases s.len() - i,
        when 0 <= i <= s.len()
        via spec_card_items_dec
{
    let j = spec_skip_ws(s, i);
    if j < s.len() && s[j] == ']' {
        Some((acc, j + 1))
    } else if j < s.len() && s[j] == ',' {
        let k = spec_skip_ws(s, j + 1);
        match spec_parse_card(s, k) {
            Some((e, m)) => spec_card_items(s, m, acc.push(e)),
            None => None,
        }
    } else {
        None
    }
}

#[via_fn]
proof fn spec_card_items_dec(s: Seq<char>, i: int, acc: Seq<(Seq<char>, Seq<char>)>) {
    lemma_skip_ws_bounds(s, i);
    let j = spec_skip_ws(s, i);
    if j < s.len() && s[j] == ',' {
        lemma_skip_ws_bounds(s, j + 1);
        let k = spec_skip_ws(s, j + 1);
        lemma_parse_card_bounds(s, k);
    }
}

proof fn lemma_card_items_bounds(s: Seq<char>, i: int, acc: Seq<(Seq<char>, Seq<char>)>)
    requires
        0 <= i <= s.len(),
    ensures
        spec_card_items(s, i, acc) matches Some((v, j)) ==> i < j <= s.len(),
    decreases s.len() - i,
{
    lemma_skip_ws_bounds(s, i);
    let j = spec_skip_ws(s, i);
    if j < s.len() && s[j] == ',' {
        lemma_skip_ws_bounds(s, j + 1);
        let k = spec_skip_ws(s, j + 1);
        lemma_parse_card_bounds(s, k);
        match spec_parse_card(s, k) {
            Some((e, m)) => {
                lemma_card_items_bounds(s, m, acc.push(e));
            },
            None => {},
        }
    }
}

/// A JSON array of flashcard objects at `i`.
pub open spec fn spec_parse_card_array(s: Seq<char>, i: int) -> Option<
    (Seq<(Seq<char>, Seq<char>)>, int),
> {
    if 0 <= i < s.len() && s[i] == '[' {
        let j = spec_skip_ws(s, i + 1);
        if j < s.len() && s[j] == ']' {
            Some((Seq::empty(), j + 1))
        } else {
            match spec_parse_card(s, j) {
                Some((e, m)) => spec_card_items(s, m, seq![e]),
                None => None,
            }
        }
    } else {
        None
    }
}

proof fn lemma_parse_card_array_bounds(s: Seq<char>, i: int)
    ensures
        spec_parse_card_array(s, i) matches Some((v, j)) ==> i < j <= s.len(),
{
    if 0 <= i < s.len() && s[i] == '[' {
        lemma_skip_ws_bounds(s, i + 1);
        let j = spec_skip_ws(s, i + 1);
        if !(j < s.len() && s[j] == ']') {
            lemma_parse_card_bounds(s, j);
            match spec_parse_card(s, j) {
                Some((e, m)) => {
                    lemma_card_items_bounds(s, m, seq![e]);
                },
                None => {},
            }
        }
    }
}

/// After one member's value: whitespace, a comma, whitespace, the given
/// key as a string, then a colon; the position of the second member's
/// value.
pub open spec fn spec_comma_key(s: Seq<char>, i: int, key: Seq<char>) -> Option<int> {
    let t = spec_skip_ws(s, i);
    if t < s.len() && s[t] == ',' {
        let u = spec_skip_ws(s, t + 1);
        match spec_parse_string(s, u) {
            Some((k, m)) => if k == key {
                spec_after_colon(s, m)
            } else {
                None
            },
            None => None,
        }
    } else {
        None
    }
}

proof fn lemma_comma_key_bounds(s: Seq<char>, i: int, key: Seq<char>)
    requires
        0 <= i <= s.len(),
    ensures
        spec_comma_key(s, i, key) matches Some(p) ==> i < p <= s.len(),
{
    lemma_skip_ws_bounds(s, i);
    let t = spec_skip_ws(s, i);
    if t < s.len() && s[t] == ',' {
        lemma_skip_ws_bounds(s, t + 1);
        let u = spec_skip_ws(s, t + 1);
        lemma_parse_string_bounds(s, u);
        if let Some((k, m)) = spec_parse_string(s, u) {
            lemma_after_colon_bounds(s, m);
        }
    }
}

/// After the last member: whitespace, the closing brace, and nothing but
/// whitespace to the end of the text.
pub open spec fn spec_object_end(s: Seq<char>, i: int) -> bool {
    let w = spec_skip_ws(s, i);
    w < s.len() && s[w] == '}' && spec_skip_ws(s, w + 1) == s.len()
}

/// The questions shape: one object holding exactly a `questions` array of
/// strings, and nothing else in the text.
pub open spec fn spec_parse_questions(s: Seq<char>) -> Option<Seq<Seq<char>>> {
    let i = spec_skip_ws(s, 0);
    if i < s.len() && s[i] == '{' {
        let j = spec_skip_ws(s, i + 1);
        match spec_parse_string(s, j) {
            Some((k, m)) => if k == "questions"@ {
                match spec_after_colon(s, m) {
                    Some(p) => match spec_parse_string_array(s, p) {
                        Some((arr, q)) => if spec_object_end(s, q) {
                            Some(arr)
                        } else {
                            None
                        },
                        None => None,
                    },
                    None => None,
                }
            } else {
                None
            },
            None => None,
        }
    } else {
        None
    }
}

/// The flashcards shape: one object holding exactly a `filename` string
/// and a `flashcards` array of flashcard objects, in either order, and
/// nothing else in the text.
pub open spec fn spec_parse_flashcards(s: Seq<char>) -> Option<
    (Seq<char>, Seq<(Seq<char>, Seq<char>)>),
> {
    let i = spec_skip_ws(s, 0);
    if i < s.len() && s[i] == '{' {
        let j = spec_skip_ws(s, i + 1);
        match spec_parse_string(s, j) {
            Some((k1, m1)) => match spec_after_colon(s, m1) {
                Some(p1) => if k1 == "filename"@ {
                    match spec_parse_string(s, p1) {
                        Some((fname, m2)) => match spec_comma_key(s, m2, "flashcards"@) {
                            Some(p2) => match spec_parse_card_array(s, p2) {
                                Some((cards, m3)) => if spec_object_end(s, m3) {
                                    Some((fname, cards))
                                } else {
                                    None
                                },
                                None => None,
                            },
                            None => None,
                        },
                        None => None,
                    }
                } else if k1 == "flashcards"@ {
                    match spec_parse_card_array(s, p1) {
                        Some((cards, m2)) => match spec_comma_key(s, m2, "filename"@) {
                            Some(p2) => match spec_parse_string(s, p2) {
                                Some((fname, m3)) => if spec_object_end(s, m3) {
                                    Some((fname, cards))
                                } else {
                                    None
                                },
                                None => None,
                            },
                            None => None,
                        },
                        None => None,
                    }
                } else {
                    None
                },
                None => None,
            },
            None => None,
        }
    } else {
        None
    }
}

fn is_ws_char(c: char) -> (r: bool)
    ensures
        r == is_json_ws(c),
{
    c == ' ' || c == '\n' || c == '\r' || c == '\t'
}

fn unescape_char(c: char) -> (r: Option<char>)
    ensures
        r == spec_unescape(c),
{
    if c == '"' {
        Some('"')
    } else if c == '\\' {
        Some('\\')
    } else if c == '/' {
        Some('/')
    } else if c == 'n' {
        Some('\n')
    } else if c == 't' {
        Some('\t')
    } else if c == 'r' {
        Some('\r')
    } else if c == 'b' {
        Some('\u{0008}')
    } else if c == 'f' {
        Some('\u{000C}')
    } else {
        None
    }
}

fn skip_ws(s: &Vec<char>, i: usize) -> (r: usize)
    requires
        i <= s@.len(),
    ensures
        r as int == spec_skip_ws(s@, i as int),
        i <= r <= s@.len(),
    decreases s@.len() - i,
{
    if i < s.len() && is_ws_char(s[i]) {
        skip_ws(s, i + 1)
    } else {
        i
    }
}

fn string_body(s: &Vec<char>, i: usize) -> (r: Option<(Vec<char>, usize)>)
    requires
        i <= s@.len(),
    ensures
        match r {
            Some((v, j)) => spec_string_body(s@, i as int) == Some((v@, j as int)) && i < j
                <= s@.len(),
            None => spec_string_body(s@, i as int) is None,
        },
    decreases s@.len() - i,
{
    if i == s.len() {
        None
    } else if s[i] == '"' {
        let v: Vec<char> = Vec::new();
        proof {
            assert(v@ =~= Seq::<char>::empty());
        }
        Some((v, i + 1))
    } else if s[i] == '\\' {
        if i + 1 < s.len() {
            match unescape_char(s[i + 1]) {
                Some(c) => match string_body(s, i + 2) {
                    Some((rest, j)) => {
                        let ghost rest0 = rest@;
                        let mut v: Vec<char> = Vec::new();
                        v.push(c);
                        let mut rest = rest;
                        v.append(&mut rest);
                        proof {
                            assert(v@ =~= seq![c] + rest0);
                        }
                        Some((v, j))
                    },
                    None => None,
                },
                None => None,
            }
        } else {
            None
        }
    } else if (s[i] as u32) < 0x20 {
        None
    } else {
        match string_body(s, i + 1) {
            Some((rest, j)) => {
                let ghost rest0 = rest@;
                let c = s[i];
                let mut v: Vec<char> = Vec::new();
                v.push(c);
                let mut rest = rest;
                v.append(&mut rest);
                proof {
                    assert(v@ =~= seq![c] + rest0);
                }
                Some((v, j))
            },
            None => None,
        }
    }
}

fn parse_string(s: &Vec<char>, i: usize) -> (r: Option<(Vec<char>, usize)>)
    requires
        i <= s@.len(),
    ensures
        match r {
            Some((v, j)) => spec_parse_string(s@, i as int) == Some((v@, j as int)) && i < j
                <= s@.len(),
            None => spec_parse_string(s@, i as int) is None,
        },
{
    if i < s.len() && s[i] == '"' {
        string_body(s, i + 1)
    } else {
        None
    }
}

fn after_colon(s: &Vec<char>, i: usize) -> (r: Option<usize>)
    requires
        i <= s@.len(),
    ensures
        match r {
            Some(p) => spec_after_colon(s@, i as int) == Some(p as int) && i <= p <= s@.len(),
            None => spec_after_colon(s@, i as int) is None,
        },
{
    let j = skip_ws(s, i);
    if j < s.len() && s[j] == ':' {
        Some(skip_ws(s, j + 1))
    } else {
        None
    }
}

fn string_items(s: &Vec<char>, i: usize, acc: Vec<String>) -> (r: Option<(Vec<String>, usize)>)
    requires
        i <= s@.len(),
    ensures
        match r {
            Some((v, j)) => spec_string_items(s@, i as int, acc.deep_view()) == Some(
                (v.deep_view(), j as int),
            ) && i < j <= s@.len(),
            None => spec_string_items(s@, i as int, acc.deep_view()) is None,
        },
    decreases s@.len() - i,
{
    let j = skip_ws(s, i);
    if j < s.len() && s[j] == ']' {
        Some((acc, j + 1))
    } else if j < s.len() && s[j] == ',' {
        let k = skip_ws(s, j + 1);
        match parse_string(s, k) {
            Some((e, m)) => {
                let ghost acc0 = acc.deep_view();
                let e_str = chars_to_string(&e);
                let mut acc2 = acc;
                acc2.push(e_str);
                proof {
                    assert(acc2.deep_view() =~= acc0.push(e@));
                }
                string_items(s, m, acc2)
            },
            None => None,
        }
    } else {
        None
    }
}

fn parse_string_array(s: &Vec<char>, i: usize) -> (r: Option<(Vec<String>, usize)>)
    requires
        i <= s@.len(),
    ensures
        match r {
            Some((v, j)) => spec_parse_string_array(s@, i as int) == Some(
                (v.deep_view(), j as int),
            ) && i < j <= s@.len(),
            None => spec_parse_string_array(s@, i as int) is None,
        },
{
    if i < s.len() && s[i] == '[' {
        let j = skip_ws(s, i + 1);
        if j < s.len() && s[j] == ']' {
            let v: Vec<String> = Vec::new();
            proof {
                assert(v.deep_view() =~= Seq::<Seq<char>>::empty());
            }
            Some((v, j + 1))
        } else {
            match parse_string(s, j) {
                Some((e, m)) => {
                    let e_str = chars_to_string(&e);
                    let mut acc: Vec<String> = Vec::new();
                    acc.push(e_str);
                    proof {
                        assert(acc.deep_view() =~= seq![e@]);
                    }
                    string_items(s, m, acc)
                },
                None => None,
            }
        }
    } else {
        None
    }
}

fn parse_card(s: &Vec<char>, i: usize) -> (r: Option<(Flashcard, usize)>)
    requires
        i <= s@.len(),
    ensures
        match r {
            Some((c, j)) => spec_parse_card(s@, i as int) == Some((c@, j as int)) && i < j
                <= s@.len(),
            None => spec_parse_card(s@, i as int) is None,
        },
{
    if i < s.len() && s[i] == '{' {
        let j = skip_ws(s, i + 1);
        let (k1, m1) = match parse_string(s, j) {
            Some(x) => x,
            None => {
                return None;
            },
        };
        let p1 = match after_colon(s, m1) {
            Some(x) => x,
            None => {
                return None;
            },
        };
        let (v1, m2) = match parse_string(s, p1) {
            Some(x) => x,
            None => {
                return None;
            },
        };
        let t = skip_ws(s, m2);
        if !(t < s.len() && s[t] == ',') {
            return None;
        }
        let u = skip_ws(s, t + 1);
        let (k2, m3) = match parse_string(s, u) {
            Some(x) => x,
            None => {
                return None;
            },
        };
        let p2 = match after_colon(s, m3) {
            Some(x) => x,
            None => {
                return None;
            },
        };
        let (v2, m4) = match parse_string(s, p2) {
            Some(x) => x,
            None => {
                return None;
            },
        };
        let w = skip_ws(s, m4);
        if !(w < s.len() && s[w] == '}') {
            return None;
        }
        if chars_eq_str(&k1, "front") && chars_eq_str(&k2, "back") {
            Some((Flashcard { front: chars_to_string(&v1), back: chars_to_string(&v2) }, w + 1))
        } else if chars_eq_str(&k1, "back") && chars_eq_str(&k2, "front") {
            Some((Flashcard { front: chars_to_string(&v2), back: chars_to_string(&v1) }, w + 1))
        } else {
            None
        }
    } else {
        None
    }
}

fn card_items(s: &Vec<char>, i: usize, acc: Vec<Flashcard>) -> (r: Option<(Vec<Flashcard>, usize)>)
    requires
        i <= s@.len(),
    ensures
        match r {
            Some((v, j)) => spec_card_items(s@, i as int, acc.deep_view()) == Some(
                (v.deep_view(), j as int),
            ) && i < j <= s@.len(),
            None => spec_card_items(s@, i as int, acc.deep_view()) is None,
        },
    decreases s@.len() - i,
{
    let j = skip_ws(s, i);
    if j < s.len() && s[j] == ']' {
        Some((acc, j + 1))
    } else if j < s.len() && s[j] == ',' {
        let k = skip_ws(s, j + 1);
        match parse_card(s, k) {
            Some((e, m)) => {
                let ghost acc0 = acc.deep_view();
                let ghost e0 = e@;
                let mut acc2 = acc;
                acc2.push(e);
                proof {
                    assert(acc2.deep_view() =~= acc0.push(e0));
                }
                card_items(s, m, acc2)
            },
            None => None,
        }
    } else {
        None
    }
}

fn parse_card_array(s: &Vec<char>, i: usize) -> (r: Option<(Vec<Flashcard>, usize)>)
    requires
        i <= s@.len(),
    ensures
        match r {
            Some((v, j)) => spec_parse_card_array(s@, i as int) == Some(
                (v.deep_view(), j as int),
            ) && i < j <= s@.len(),
            None => spec_parse_card_array(s@, i as int) is None,
        },
{
    if i < s.len() && s[i] == '[' {
        let j = skip_ws(s, i + 1);
        if j < s.len() && s[j] == ']' {
            let v: Vec<Flashcard> = Vec::new();
            proof {
                assert(v.deep_view() =~= Seq::<(Seq<char>, Seq<char>)>::empty());
            }
            Some((v, j + 1))
        } else {
            match parse_card(s, j) {
                Some((e, m)) => {
                    let ghost e0 = e@;
                    let mut acc: Vec<Flashcard> = Vec::new();
                    acc.push(e);
                    proof {
                        assert(acc.deep_view() =~= seq![e0]);
                    }
                    card_items(s, m, acc)
                },
                None => None,
            }
        }
    } else {
        None
    }
}

fn comma_key(s: &Vec<char>, i: usize, key: &str) -> (r: Option<usize>)
    requires
        i <= s@.len(),
    ensures
        match r {
            Some(p) => spec_comma_key(s@, i as int, key@) == Some(p as int) && i <= p <= s@.len(),
            None => spec_comma_key(s@, i as int, key@) is None,
        },
{
    let t = skip_ws(s, i);
    if t < s.len() && s[t] == ',' {
        let u = skip_ws(s, t + 1);
        match parse_string(s, u) {
            Some((k, m)) => {
                if chars_eq_str(&k, key) {
                    after_colon(s, m)
                } else {
                    None
                }
            },
            None => None,
        }
    } else {
        None
    }
}

fn object_end(s: &Vec<char>, i: usize) -> (r: bool)
    requires
        i <= s@.len(),
    ensures
        r == spec_object_end(s@, i as int),
{
    let w = skip_ws(s, i);
    if w < s.len() && s[w] == '}' {
        skip_ws(s, w + 1) == s.len()
    } else {
        false
    }
}

fn malformed_questions() -> (e: RigError)
    ensures
        e matches RigError::MalformedModelOutput { message } && message@
            == "Failed to parse questions response"@,
{
    RigError::MalformedModelOutput { message: "Failed to parse questions response".to_owned() }
}

fn malformed_flashcards() -> (e: RigError)
    ensures
        e matches RigError::MalformedModelOutput { message } && message@
            == "Failed to parse flashcards response"@,
{
    RigError::MalformedModelOutput { message: "Failed to parse flashcards response".to_owned() }
}

/// Reads a model reply as the questions shape: the ordered list of
/// questions when the text is exactly that shape, and a malformed-output
/// failure otherwise.
pub fn parse_questions_response(response: &str) -> (r: Result<Vec<String>, RigError>)
    ensures
        match r {
            Ok(qs) => spec_parse_questions(response@) == Some(qs.deep_view()),
            Err(e) => spec_parse_questions(response@) is None && (e matches
            RigError::MalformedModelOutput { message } && message@
                == "Failed to parse questions response"@),
        },
{
    let s = str_to_chars(response);
    let i = skip_ws(&s, 0);
    if !(i < s.len() && s[i] == '{') {
        return Err(malformed_questions());
    }
    let j = skip_ws(&s, i + 1);
    let (k, m) = match parse_string(&s, j) {
        Some(x) => x,
        None => {
            return Err(malformed_questions());
        },
    };
    if !chars_eq_str(&k, "questions") {
        return Err(malformed_questions());
    }
    let p = match after_colon(&s, m) {
        Some(x) => x,
        None => {
            return Err(malformed_questions());
        },
    };
    let (arr, q) = match parse_string_array(&s, p) {
        Some(x) => x,
        None => {
            return Err(malformed_questions());
        },
    };
    if !object_end(&s, q) {
        return Err(malformed_questions());
    }
    Ok(arr)
}

/// Finishes a questions call from the completion's outcome: a provider
/// failure is passed through unchanged, and a reply is parsed as the
/// questions shape.
pub fn questions_from_reply(reply: Result<String, RigError>) -> (r: Result<Vec<String>, RigError>)
    ensures
        match reply {
            Ok(text) => match r {
                Ok(qs) => spec_parse_questions(text@) == Some(qs.deep_view()),
                Err(e) => spec_parse_questions(text@) is None && (e matches
                RigError::MalformedModelOutput { message } && message@
                    == "Failed to parse questions response"@),
            },
            Err(e) => r matches Err(e2) && e2 == e,
        },
{
    match reply {
        Ok(text) => parse_questions_response(text.as_str()),
        Err(e) => Err(e),
    }
}

/// Finishes a flashcards call from the completion's outcome: a provider
/// failure is passed through unchanged, and a reply is parsed as the
/// flashcards shape.
pub fn flashcards_from_reply(reply: Result<String, RigError>) -> (r: Result<
    (String, Vec<Flashcard>),
    RigError,
>)
    ensures
        match reply {
            Ok(text) => match r {
                Ok(out) => spec_parse_flashcards(text@) == Some((out.0@, out.1.deep_view())),
                Err(e) => spec_parse_flashcards(text@) is None && (e matches
                RigError::MalformedModelOutput { message } && message@
                    == "Failed to parse flashcards response"@),
            },
            Err(e) => r matches Err(e2) && e2 == e,
        },
{
    match reply {
        Ok(text) => parse_flashcards_response(text.as_str()),
        Err(e) => Err(e),
    }
}

/// Reads a model reply as the flashcards shape: the suggested filename and
/// the ordered flashcards when the text is exactly that shape, and a
/// malformed-output failure otherwise.
pub fn parse_flashcards_response(response: &str) -> (r: Result<
    (String, Vec<Flashcard>),
    RigError,
>)
    ensures
        match r {
            Ok(out) => spec_parse_flashcards(response@) == Some((out.0@, out.1.deep_view())),
            Err(e) => spec_parse_flashcards(response@) is None && (e matches
            RigError::MalformedModelOutput { message } && message@
                == "Failed to parse flashcards response"@),
        },
{
    let s = str_to_chars(response);
    let i = skip_ws(&s, 0);
    if !(i < s.len() && s[i] == '{') {
        return Err(malformed_flashcards());
    }
    let j = skip_ws(&s, i + 1);
    let (k1, m1) = match parse_string(&s, j) {
        Some(x) => x,
        None => {
            return Err(malformed_flashcards());
        },
    };
    let p1 = match after_colon(&s, m1) {
        Some(x) => x,
        None => {
            return Err(malformed_flashcards());
        },
    };
    if chars_eq_str(&k1, "filename") {
        let (fname, m2) = match parse_string(&s, p1) {
            Some(x) => x,
            None => {
                return Err(malformed_flashcards());
            },
        };
        let p2 = match comma_key(&s, m2, "flashcards") {
            Some(x) => x,
            None => {
                return Err(malformed_flashcards());
            },
        };
        let (cards, m3) = match parse_card_array(&s, p2) {
            Some(x) => x,
            None => {
                return Err(malformed_flashcards());
            },
        };
        if !object_end(&s, m3) {
            return Err(malformed_flashcards());
        }
        Ok((chars_to_string(&fname), cards))
    } else if chars_eq_str(&k1, "flashcards") {
        let (cards, m2) = match parse_card_array(&s, p1) {
            Some(x) => x,
            None => {
                return Err(malformed_flashcards());
            },
        };
        let p2 = match comma_key(&s, m2, "filename") {
            Some(x) => x,
            None => {
                return Err(malformed_flashcards());
            },
        };
        let (fname, m3) = match parse_string(&s, p2) {
            Some(x) => x,
            None => {
                return Err(malformed_flashcards());
            },
        };
        if !object_end(&s, m3) {
            return Err(malformed_flashcards());
        }
        Ok((chars_to_string(&fname), cards))
    } else {
        Err(malformed_flashcards())
    }
}

} // verus!
