//! The diagnostic side of decoding: the classification of a failed parse
//! into structural and semantic failures, and the routine that, for a
//! semantic failure, points at the offending line and column of the
//! source text and quotes the rest of that line.

use vstd::prelude::*;
use vstd::string::StringExecFns;
use vstd::string::StringSliceAdditionalSpecFns;
use vstd::utf8::decode_utf8;
use vstd::utf8::encode_utf8;

use crate::json::ErrorClass;
use crate::json::classify_error;
use crate::json::error_class_of;
use crate::json::error_column_of;
use crate::json::error_line_of;
use crate::json::error_text_of;
use crate::json::error_message;
use crate::text::decimal;
use crate::text::u64_to_string;

verus! {

/// A decoding failure. A structural failure (the text is not well-formed
/// JSON, or could not be read) keeps the decoder's own error unchanged;
/// a semantic failure (well-formed JSON of the wrong shape) carries an
/// enriched diagnostic message.
#[derive(Debug)]
pub enum DecodeError {
    Malformed(serde_json::Error),
    Semantic(String),
}

impl DecodeError {
    /// The text of the failure: the decoder's own message for a
    /// structural failure, the enriched diagnostic for a semantic one.
    pub fn message(&self) -> (r: String)
        ensures
            (*self matches DecodeError::Malformed(e) ==> r@ == error_text_of(e)),
            (*self matches DecodeError::Semantic(m) ==> r@ == m@),
    {
        match self {
            DecodeError::Malformed(e) => error_message(e),
            DecodeError::Semantic(m) => m.clone(),
        }
    }

    /// Whether this is a semantic failure.
    pub fn is_semantic(&self) -> (r: bool)
        ensures
            r == (*self matches DecodeError::Semantic(_)),
    {
        match self {
            DecodeError::Semantic(_) => true,
            DecodeError::Malformed(_) => false,
        }
    }
}

/// The index of the first newline byte of `b` at or after `from`, if any.
pub open spec fn find_newline(b: Seq<u8>, from: int) -> Option<int>
    decreases b.len() - from,
{
    if from < 0 || from >= b.len() {
        None
    } else if b[from] == 10u8 {
        Some(from)
    } else {
        find_newline(b, from + 1)
    }
}

/// The byte index at which 1-based line `line` starts, or `None` when the
/// text has fewer newlines than that. Line 0, which the decoder reports
/// only for failures without a position, is treated like line 1.
pub open spec fn line_start(b: Seq<u8>, line: nat) -> Option<int>
    decreases line,
{
    if line <= 1 {
        Some(0)
    } else {
        match line_start(b, (line - 1) as nat) {
            None => None,
            Some(s) => match find_newline(b, s) {
                None => None,
                Some(nl) => Some(nl + 1),
            },
        }
    }
}

/// The quoted excerpt for a failure at `line:col` of the text `s`: line
/// `line` of `s`, its trailing carriage return stripped, from the
/// reported 1-based byte column to the end of the line (so the byte at
/// the reported column opens the excerpt; column 0, which only
/// positionless failures report, reads like column 1). `None` when `s`
/// has no such line (so the caller must fall back to the undecorated
/// error), or when the column does not fall on a character boundary.
pub open spec fn spec_fragment(s: Seq<char>, line: nat, col: nat) -> Option<Seq<char>> {
    let b = encode_utf8(s);
    match line_start(b, line) {
        None => None,
        Some(st) => if st >= b.len() {
            None
        } else {
            let e0 = match find_newline(b, st) {
                None => b.len() as int,
                Some(nl) => nl,
            };
            let e1 = if e0 > st && b[e0 - 1] == 13u8 {
                e0 - 1
            } else {
                e0
            };
            let cut = if col == 0 {
                st
            } else if col - 1 > e1 - st {
                e1
            } else {
                st + col - 1
            };
            if vstd::utf8::is_char_boundary(b, cut) {
                Some(decode_utf8(b.subrange(cut, e1)))
            } else {
                None
            }
        },
    }
}

/// The enriched diagnostic for a semantic decoding failure at
/// `line:col`, while extracting a value of type `tn`, quoting `frag`
/// from the source text.
pub open spec fn enriched_message(tn: Seq<char>, line: nat, col: nat, frag: Seq<char>) -> Seq<
    char,
> {
    "Unable to parse release data due to semantically invalid JSON data when attempting to extract "@
        + tn + " at "@ + decimal(line) + ":"@ + decimal(col) + ":\n"@ + frag
}

proof fn lemma_find_newline_props(b: Seq<u8>, from: int)
    requires
        0 <= from,
    ensures
        find_newline(b, from) matches Some(nl) ==> from <= nl < b.len() && b[nl] == 10u8,
    decreases b.len() - from,
{
    if from < b.len() && b[from] != 10u8 {
        lemma_find_newline_props(b, from + 1);
    }
}

proof fn lemma_line_start_none(b: Seq<u8>, l: nat, m: nat)
    requires
        l <= m,
        line_start(b, l) is None,
    ensures
        line_start(b, m) is None,
    decreases m,
{
    if m > l {
        lemma_line_start_none(b, l, (m - 1) as nat);
    }
}

spec fn line_bounds_post(s: Seq<char>, line: nat, r: Option<(usize, usize)>) -> bool {
    let b = encode_utf8(s);
    match r {
        Some(p) => {
            &&& line_start(b, line) == Some(p.0 as int)
            &&& p.0 < b.len()
            &&& p.0 <= p.1 <= b.len()
            &&& (match find_newline(b, p.0 as int) {
                None => p.1 == b.len(),
                Some(nl) => p.1 as int == nl,
            })
        },
        None => (match line_start(b, line) {
            None => true,
            Some(st) => st >= b.len(),
        }),
    }
}

/// Finds the byte range of 1-based line `line` within `json`, the line's
/// trailing newline excluded, as [`line_bounds_post`] states: `None` when
/// the text has no such line.
fn find_line_bounds(json: &str, line: usize) -> (r: Option<(usize, usize)>)
    ensures
        line_bounds_post(json@, line as nat, r),
{
    let ghost b = encode_utf8(json@);
    let bytes = json.as_bytes();
    let n = bytes.len();
    assert(bytes@ == b);
    let target: usize = if line == 0 {
        1
    } else {
        line
    };
    assert(line_start(b, line as nat) == line_start(b, target as nat));
    let mut st: usize = 0;
    let mut ln: usize = 1;
    while ln < target
        invariant
            b == encode_utf8(json@),
            1 <= ln <= target,
            st <= n,
            n == b.len(),
            bytes@ == b,
            line_start(b, target as nat) == line_start(b, line as nat),
            line_start(b, ln as nat) == Some(st as int),
        decreases target - ln,
    {
        let mut i = st;
        while i < n && bytes[i] != 10u8
            invariant
                st <= i <= n,
                n == b.len(),
                bytes@ == b,
                find_newline(b, st as int) == find_newline(b, i as int),
            decreases n - i,
        {
            i = i + 1;
        }
        if i == n {
            proof {
                assert(find_newline(b, i as int) is None);
                assert(line_start(b, (ln + 1) as nat) is None);
                lemma_line_start_none(b, (ln + 1) as nat, target as nat);
                assert(line_start(b, target as nat) is None);
                assert(line_start(b, line as nat) is None);
            }
            return None;
        }
        proof {
            assert(find_newline(b, i as int) == Some(i as int));
            assert(line_start(b, (ln + 1) as nat) == Some(i + 1 as int));
        }
        st = i + 1;
        ln = ln + 1;
    }
    if st >= n {
        proof {
            assert(line_start(b, line as nat) == Some(st as int));
            assert(st as int >= encode_utf8(json@).len());
        }
        return None;
    }
    let mut e = st;
    while e < n && bytes[e] != 10u8
        invariant
            b == encode_utf8(json@),
            st <= e <= n,
            n == b.len(),
            bytes@ == b,
            find_newline(b, st as int) == find_newline(b, e as int),
        decreases n - e,
    {
        e = e + 1;
    }
    proof {
        if e == n {
            assert(find_newline(b, e as int) is None);
        } else {
            assert(find_newline(b, e as int) == Some(e as int));
        }
    }
    Some((st, e))
}

/// Extracts the excerpt that [`spec_fragment`] describes, as a slice of
/// `json`.
fn extract_fragment<'a>(json: &'a str, line: usize, column: usize) -> (r: Option<&'a str>)
    ensures
        match r {
            Some(f) => spec_fragment(json@, line as nat, column as nat) == Some(f@),
            None => spec_fragment(json@, line as nat, column as nat) is None,
        },
{
    broadcast use vstd::utf8::encode_utf8_valid_utf8;
    broadcast use vstd::utf8::encode_utf8_decode_utf8;
    broadcast use vstd::utf8::valid_utf8_split;
    broadcast use vstd::utf8::is_char_boundary_start_end_of_seq;
    broadcast use vstd::utf8::is_char_boundary_iff_not_is_continuation_byte;

    let ghost b = encode_utf8(json@);
    let bytes = json.as_bytes();
    let n = bytes.len();
    let (st, e0) = match find_line_bounds(json, line) {
        Some(p) => p,
        None => {
            return None;
        },
    };
    let e1: usize = if e0 > st && bytes[e0 - 1] == 13u8 {
        e0 - 1
    } else {
        e0
    };
    let cut: usize = if column == 0 {
        st
    } else if column - 1 > e1 - st {
        e1
    } else {
        st + (column - 1)
    };
    if !json.is_char_boundary(cut) {
        proof {
            lemma_find_newline_props(b, st as int);
            assert(spec_fragment(json@, line as nat, column as nat) is None);
        }
        return None;
    }
    proof {
        lemma_find_newline_props(b, st as int);
        assert(vstd::utf8::is_char_boundary(b, e1 as int)) by {
            lemma_find_newline_props(b, st as int);
            if (e1 as int) < b.len() {
                if e1 == e0 {
                    assert(find_newline(b, st as int) == Some(e0 as int));
                    assert(b[e1 as int] == 10u8);
                } else {
                    assert(b[e1 as int] == 13u8);
                }
                assert(!vstd::utf8::is_continuation_byte(b[e1 as int]));
            }
        }
    }
    let (_, tail) = json.split_at(cut);
    proof {
        assert(tail.spec_bytes() == b.subrange(cut as int, b.len() as int));
        assert(vstd::utf8::is_char_boundary(tail.spec_bytes(), (e1 - cut) as int)) by {
            let tb = tail.spec_bytes();
            if (e1 - cut) as int == tb.len() {
                assert(vstd::utf8::is_char_boundary(tb, tb.len() as int));
            } else {
                assert(tb[(e1 - cut) as int] == b[e1 as int]);
                assert(!vstd::utf8::is_continuation_byte(tb[(e1 - cut) as int]));
            }
        }
    }
    let (frag, _) = tail.split_at(e1 - cut);
    proof {
        assert(encode_utf8(frag@) =~= b.subrange(cut as int, e1 as int));
        assert(frag@ == decode_utf8(b.subrange(cut as int, e1 as int)));
    }
    Some(frag)
}

fn build_enriched(target: &str, line: usize, column: usize, frag: &str) -> (r: String)
    ensures
        r@ == enriched_message(target@, line as nat, column as nat, frag@),
{
    let mut m =
        "Unable to parse release data due to semantically invalid JSON data when attempting to extract ".to_owned();
    m.append(target);
    m.append(" at ");
    let line_s = u64_to_string(line as u64);
    m.append(line_s.as_str());
    m.append(":");
    let col_s = u64_to_string(column as u64);
    m.append(col_s.as_str());
    m.append(":\n");
    m.append(frag);
    proof {
        assert(line as u64 as nat == line as nat);
        assert(column as u64 as nat == column as nat);
        assert(m@ =~= enriched_message(target@, line as nat, column as nat, frag@));
    }
    m
}

/// Turns a failed decode of `json` into the error the caller should
/// surface, as the extraction of a value of type `target`.
///
/// A structural failure (I/O, malformed syntax, premature end of input)
/// is passed through unchanged. A semantic failure is rewritten into an
/// enriched diagnostic naming the type being extracted and the reported
/// line and column, and quoting the offending line from that column on;
/// when the reported line is not present in `json`, the original error is
/// passed through unchanged instead. This routine itself never fails.
pub fn handle_json_deserialization_failure(
    json: &str,
    json_error: serde_json::Error,
    target: &str,
) -> (r: DecodeError)
    ensures
        (error_class_of(json_error) != ErrorClass::Data ==> (r matches DecodeError::Malformed(e)
            && e == json_error)),
        (error_class_of(json_error) == ErrorClass::Data ==> (match spec_fragment(
            json@,
            error_line_of(json_error) as nat,
            error_column_of(json_error) as nat,
        ) {
            Some(frag) => (r matches DecodeError::Semantic(m) && m@ == enriched_message(
                target@,
                error_line_of(json_error) as nat,
                error_column_of(json_error) as nat,
                frag,
            )),
            None => (r matches DecodeError::Malformed(e) && e == json_error),
        })),
{
    let class = classify_error(&json_error);
    match class {
        ErrorClass::Data => {
            let line = json_error.line();
            let column = json_error.column();
            match extract_fragment(json, line, column) {
                Some(frag) => DecodeError::Semantic(build_enriched(target, line, column, frag)),
                None => DecodeError::Malformed(json_error),
            }
        },
        _ => DecodeError::Malformed(json_error),
    }
}

} // verus!
