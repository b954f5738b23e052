//! Rejection codes and what they say about the credentials.
//!
//! A rejection code is dot-structured: `InvalidAccessKeyId.NotFound` has the
//! main code `InvalidAccessKeyId`. Only the main code decides whether a
//! rejection condemns the credentials.

use vstd::prelude::*;
use crate::text::same_text;

verus! {

/// The part of `code` before its first dot; all of `code` if it has none.
pub open spec fn main_code(code: Seq<char>) -> Seq<char> {
    match code.index_of_first('.') {
        Some(dot) => code.subrange(0, dot),
        None => code,
    }
}

/// Whether a rejection with this code means that the credentials are wrong:
/// the access key id is unknown or missing, or the signature made with the
/// secret does not match.
pub open spec fn condemns_credentials(code: Seq<char>) -> bool {
    let main = main_code(code);
    main == "InvalidAccessKeyId"@ || main == "SignatureDoesNotMatch"@ || main
        == "MissingAccessKeyId"@
}

/// The main code is the longest beginning of the code that has no dot: it
/// begins the code, holds no dot, and is followed by a dot or by nothing.
pub proof fn lemma_main_code(code: Seq<char>)
    ensures
        main_code(code).is_prefix_of(code),
        !main_code(code).contains('.'),
        main_code(code).len() < code.len() ==> code[main_code(code).len() as int] == '.',
        !code.contains('.') ==> main_code(code) == code,
{
    code.index_of_first_ensures('.');
    let main = main_code(code);
    if main.contains('.') {
        let at = choose|i: int| 0 <= i < main.len() && main[i] == '.';
        assert(code[at] == '.');
    }
}

/// What follows the first dot does not matter: a code made of a dotless
/// text, a dot and anything has that text as its main code, and so has the
/// text alone.
pub proof fn lemma_main_code_of_dotted(main: Seq<char>, rest: Seq<char>)
    requires
        !main.contains('.'),
    ensures
        main_code(main) == main,
        main_code(main + seq!['.'] + rest) == main,
{
    main.index_of_first_ensures('.');
    let code = main + seq!['.'] + rest;
    code.index_of_first_ensures('.');
    assert(code[main.len() as int] == '.');
    let dot = code.index_of_first('.')->0;
    if dot < main.len() {
        assert(main[dot] == '.');
    }
    assert(code.subrange(0, main.len() as int) =~= main);
}

/// Each of the three main codes that condemn credentials does so alone and
/// with anything after a dot, as in `InvalidAccessKeyId.NotFound`.
pub proof fn lemma_condemning_codes(rest: Seq<char>)
    ensures
        condemns_credentials("InvalidAccessKeyId"@),
        condemns_credentials("SignatureDoesNotMatch"@),
        condemns_credentials("MissingAccessKeyId"@),
        condemns_credentials("InvalidAccessKeyId"@ + seq!['.'] + rest),
        condemns_credentials("SignatureDoesNotMatch"@ + seq!['.'] + rest),
        condemns_credentials("MissingAccessKeyId"@ + seq!['.'] + rest),
{
    reveal_strlit("InvalidAccessKeyId");
    reveal_strlit("SignatureDoesNotMatch");
    reveal_strlit("MissingAccessKeyId");
    lemma_main_code_of_dotted("InvalidAccessKeyId"@, rest);
    lemma_main_code_of_dotted("SignatureDoesNotMatch"@, rest);
    lemma_main_code_of_dotted("MissingAccessKeyId"@, rest);
}

/// Cuts the main code out of a rejection code.
pub fn split_main_code(code: &str) -> (main: &str)
    ensures
        main@ == main_code(code@),
{
    let length = code.unicode_len();
    let mut end: usize = 0;
    while end < length && code.get_char(end) != '.'
        invariant
            length == code@.len(),
            end <= length,
            forall|k: int| 0 <= k < end ==> code@[k] != '.',
        decreases length - end,
    {
        end += 1;
    }
    proof {
        code@.index_of_first_ensures('.');
        if end == length {
            assert(code@.subrange(0, end as int) =~= code@);
        }
    }
    code.substring_char(0, end)
}

/// Decides whether a rejection with this code condemns the credentials.
pub fn is_credential_rejection(code: &str) -> (condemned: bool)
    ensures
        condemned == condemns_credentials(code@),
{
    let main = split_main_code(code);
    same_text(main, "InvalidAccessKeyId") || same_text(main, "SignatureDoesNotMatch")
        || same_text(main, "MissingAccessKeyId")
}

} // verus!
