//! The JSON shapes the pipeline exchanges with the model, as verified
//! grammars over character sequences.
//!
//! The model is directed to answer either with an object of three booleans
//! (the project scope) or with an array of strings (the external URLs),
//! and the prompt templates demand the canonical form these grammars
//! accept: the scope's three keys in their fixed order, and list entries
//! without escape sequences.  Both forms are decoded here against an exact
//! specification-level parser; an answer that does not match its grammar
//! is rejected, which the calling agent step treats as fatal.  The scope
//! also has an encoder, whose output the decoder provably round-trips.

use vstd::prelude::*;
use vstd::seq_lib::lemma_concat_associative;
use vstd::string::StrSliceExecFns;
use vstd::string::StringExecFns;
use crate::agent_traits::ProjectScope;

verus! {

/// The characters the grammars treat as insignificant whitespace.
pub open spec fn is_json_ws(c: char) -> bool {
    c == ' ' || c == '\n' || c == '\r' || c == '\t'
}

/// The first index at or after `i` that does not hold whitespace.
pub open spec fn skip_ws(s: Seq<char>, i: int) -> int
    decreases s.len() - i,
{
    if 0 <= i < s.len() && is_json_ws(s[i]) {
        skip_ws(s, i + 1)
    } else {
        i
    }
}

/// Whether the token `tok` occurs in `s` starting exactly at `i`.
pub open spec fn match_at(s: Seq<char>, i: int, tok: Seq<char>) -> bool {
    &&& 0 <= i
    &&& i + tok.len() <= s.len()
    &&& s.subrange(i, i + tok.len()) == tok
}

/// Skip whitespace, then require the token; the index after it on success.
pub open spec fn expect_tok(s: Seq<char>, i: int, tok: Seq<char>) -> Option<int> {
    let j = skip_ws(s, i);
    if match_at(s, j, tok) {
        Some(j + tok.len())
    } else {
        None
    }
}

/// The characters of the literal `true`.
pub open spec fn true_seq() -> Seq<char> {
    seq!['t', 'r', 'u', 'e']
}

/// The characters of the literal `false`.
pub open spec fn false_seq() -> Seq<char> {
    seq!['f', 'a', 'l', 's', 'e']
}

/// Skip whitespace, then read a boolean literal and the index after it.
pub open spec fn parse_bool_token(s: Seq<char>, i: int) -> Option<(bool, int)> {
    let j = skip_ws(s, i);
    if match_at(s, j, true_seq()) {
        Some((true, j + true_seq().len()))
    } else if match_at(s, j, false_seq()) {
        Some((false, j + false_seq().len()))
    } else {
        None
    }
}

/// The quoted key naming the scope's CRUD flag.
pub open spec fn key_crud() -> Seq<char> {
    seq![
        '"', 'i', 's', '_', 'c', 'r', 'u', 'd', '_', 'r', 'e', 'q', 'u', 'i', 'r', 'e', 'd', '"',
    ]
}

/// The quoted key naming the scope's login/logout flag.
pub open spec fn key_login() -> Seq<char> {
    seq![
        '"', 'i', 's', '_', 'u', 's', 'e', 'r', '_', 'l', 'o', 'g', 'i', 'n', '_', 'a', 'n', 'd',
        '_', 'l', 'o', 'g', 'o', 'u', 't', '"',
    ]
}

/// The quoted key naming the scope's external-URLs flag.
pub open spec fn key_urls() -> Seq<char> {
    seq![
        '"', 'i', 's', '_', 'e', 'x', 't', 'e', 'r', 'n', 'a', 'l', '_', 'u', 'r', 'l', 's', '_',
        'r', 'e', 'q', 'u', 'i', 'r', 'e', 'd', '"',
    ]
}

/// Read one `"key": bool` field: the key token, a colon, then the boolean.
pub open spec fn parse_field(s: Seq<char>, i: int, key: Seq<char>) -> Option<(bool, int)> {
    match expect_tok(s, i, key) {
        None => None,
        Some(j) => match expect_tok(s, j, seq![':']) {
            None => None,
            Some(k) => parse_bool_token(s, k),
        },
    }
}

/// The scope grammar: an object holding exactly the three boolean fields of
/// [`ProjectScope`], in their canonical order, with arbitrary whitespace
/// between tokens and nothing but whitespace after the closing brace.
pub open spec fn spec_decode_scope(s: Seq<char>) -> Option<ProjectScope> {
    match expect_tok(s, 0, seq!['{']) {
        None => None,
        Some(i) => match parse_field(s, i, key_crud()) {
            None => None,
            Some((crud, j)) => match expect_tok(s, j, seq![',']) {
                None => None,
                Some(k) => match parse_field(s, k, key_login()) {
                    None => None,
                    Some((login, l)) => match expect_tok(s, l, seq![',']) {
                        None => None,
                        Some(m) => match parse_field(s, m, key_urls()) {
                            None => None,
                            Some((urls, p)) => match expect_tok(s, p, seq!['}']) {
                                None => None,
                                Some(q) => if skip_ws(s, q) == s.len() {
                                    Some(
                                        ProjectScope {
                                            is_crud_required: crud,
                                            is_user_login_and_logout: login,
                                            is_external_urls_required: urls,
                                        },
                                    )
                                } else {
                                    None
                                },
                            },
                        },
                    },
                },
            },
        },
    }
}

/// The characters of a boolean literal.
pub open spec fn spec_bool_seq(b: bool) -> Seq<char> {
    if b {
        true_seq()
    } else {
        false_seq()
    }
}

/// The canonical encoding of a scope: the three fields in order, without
/// whitespace.
pub open spec fn spec_encode_scope(scope: ProjectScope) -> Seq<char> {
    seq!['{'] + key_crud() + seq![':'] + spec_bool_seq(scope.is_crud_required) + seq![',']
        + key_login() + seq![':'] + spec_bool_seq(scope.is_user_login_and_logout) + seq![',']
        + key_urls() + seq![':'] + spec_bool_seq(scope.is_external_urls_required) + seq!['}']
}

/// Scan a string body for its closing quote, from `i` to the first `"`.
/// An escape character is not accepted, so every character before the
/// closing quote belongs to the string verbatim.
pub open spec fn scan_string(s: Seq<char>, i: int) -> Option<int>
    decreases s.len() - i,
{
    if 0 <= i < s.len() {
        if s[i] == '"' {
            Some(i)
        } else if s[i] == '\\' {
            None
        } else {
            scan_string(s, i + 1)
        }
    } else {
        None
    }
}

/// Parse one quoted string standing exactly at `i`: its characters and the
/// index after its closing quote.
pub open spec fn parse_string_at(s: Seq<char>, i: int) -> Option<(Seq<char>, int)> {
    if 0 <= i < s.len() && s[i] == '"' {
        match scan_string(s, i + 1) {
            None => None,
            Some(j) => Some((s.subrange(i + 1, j), j + 1)),
        }
    } else {
        None
    }
}

/// A found closing quote lies between the scan's start and the text's end.
proof fn lemma_scan_string_bound(s: Seq<char>, i: int)
    ensures
        scan_string(s, i) matches Some(j) ==> i <= j < s.len(),
    decreases s.len() - i,
{
    if 0 <= i < s.len() && s[i] != '"' && s[i] != '\\' {
        lemma_scan_string_bound(s, i + 1);
    }
}

/// Skipping whitespace never moves backwards nor past the end.
proof fn lemma_skip_ws_bound(s: Seq<char>, i: int)
    ensures
        skip_ws(s, i) >= i,
        i <= s.len() ==> skip_ws(s, i) <= s.len(),
    decreases s.len() - i,
{
    if 0 <= i < s.len() && is_json_ws(s[i]) {
        lemma_skip_ws_bound(s, i + 1);
    }
}

/// Parse one or more comma-separated quoted strings, with whitespace
/// around each: the strings and the index after the last closing quote.
pub open spec fn parse_items(s: Seq<char>, i: int) -> Option<(Seq<Seq<char>>, int)>
    decreases s.len() - i,
    via parse_items_dec
{
    let j = skip_ws(s, i);
    match parse_string_at(s, j) {
        None => None,
        Some((item, k)) => {
            let l = skip_ws(s, k);
            if l < s.len() && s[l] == ',' {
                match parse_items(s, l + 1) {
                    None => None,
                    Some((rest, end)) => Some((seq![item] + rest, end)),
                }
            } else {
                Some((seq![item], k))
            }
        },
    }
}

#[via_fn]
proof fn parse_items_dec(s: Seq<char>, i: int) {
    lemma_skip_ws_bound(s, i);
    let j = skip_ws(s, i);
    match parse_string_at(s, j) {
        Some((item, k)) => {
            lemma_scan_string_bound(s, j + 1);
            lemma_skip_ws_bound(s, k);
        },
        None => {},
    }
}

/// The URL-list grammar: an array of quoted strings, possibly empty, with
/// arbitrary whitespace between tokens and nothing but whitespace after
/// the closing bracket.
pub open spec fn spec_decode_string_list(s: Seq<char>) -> Option<Seq<Seq<char>>> {
    let i = skip_ws(s, 0);
    if match_at(s, i, seq!['[']) {
        let j = skip_ws(s, i + 1);
        if match_at(s, j, seq![']']) {
            if skip_ws(s, j + 1) == s.len() {
                Some(Seq::empty())
            } else {
                None
            }
        } else {
            match parse_items(s, i + 1) {
                None => None,
                Some((items, k)) => {
                    let l = skip_ws(s, k);
                    if match_at(s, l, seq![']']) && skip_ws(s, l + 1) == s.len() {
                        Some(items)
                    } else {
                        None
                    }
                },
            }
        }
    } else {
        None
    }
}

/// One quoted string of the canonical list encoding.
pub open spec fn spec_quote(item: Seq<char>) -> Seq<char> {
    seq!['"'] + item + seq!['"']
}

/// The items of the canonical list encoding from index `i` on, quoted and
/// comma-separated.
pub open spec fn spec_encode_items_from(items: Seq<Seq<char>>, i: int) -> Seq<char>
    decreases items.len() - i,
{
    if 0 <= i < items.len() {
        if i + 1 == items.len() {
            spec_quote(items[i])
        } else {
            spec_quote(items[i]) + seq![','] + spec_encode_items_from(items, i + 1)
        }
    } else {
        Seq::empty()
    }
}

/// The canonical encoding of a string list, without whitespace.
pub open spec fn spec_encode_string_list(items: Seq<Seq<char>>) -> Seq<char> {
    seq!['['] + spec_encode_items_from(items, 0) + seq![']']
}

/// The string-literal tokens the executable codec works with are exactly
/// the token sequences of the grammar.
proof fn lemma_literal_tokens()
    ensures
        ("true")@ == true_seq(),
        ("false")@ == false_seq(),
        ("\"is_crud_required\"")@ == key_crud(),
        ("\"is_user_login_and_logout\"")@ == key_login(),
        ("\"is_external_urls_required\"")@ == key_urls(),
        ("{")@ == seq!['{'],
        ("}")@ == seq!['}'],
        (":")@ == seq![':'],
        (",")@ == seq![','],
        ("[")@ == seq!['['],
        ("]")@ == seq![']'],
        ("\"")@ == seq!['"'],
{
    reveal_strlit("true");
    reveal_strlit("false");
    reveal_strlit("\"is_crud_required\"");
    reveal_strlit("\"is_user_login_and_logout\"");
    reveal_strlit("\"is_external_urls_required\"");
    reveal_strlit("{");
    reveal_strlit("}");
    reveal_strlit(":");
    reveal_strlit(",");
    reveal_strlit("[");
    reveal_strlit("]");
    reveal_strlit("\"");
    assert(("true")@ =~= true_seq());
    assert(("false")@ =~= false_seq());
    assert(("\"is_crud_required\"")@ =~= key_crud());
    assert(("\"is_user_login_and_logout\"")@ =~= key_login());
    assert(("\"is_external_urls_required\"")@ =~= key_urls());
    assert(("{")@ =~= seq!['{']);
    assert(("}")@ =~= seq!['}']);
    assert((":")@ =~= seq![':']);
    assert((",")@ =~= seq![',']);
    assert(("[")@ =~= seq!['[']);
    assert(("]")@ =~= seq![']']);
    assert(("\"")@ =~= seq!['"']);
}

/// Advance past whitespace, executably.
fn exec_skip_ws(s: &str, i: usize, n: usize) -> (j: usize)
    requires
        n == s@.len(),
        i <= n,
    ensures
        j as int == skip_ws(s@, i as int),
        i <= j <= n,
{
    let mut j = i;
    while j < n
        invariant
            n == s@.len(),
            i <= j <= n,
            skip_ws(s@, i as int) == skip_ws(s@, j as int),
        ensures
            j == n || !is_json_ws(s@[j as int]),
        decreases n - j,
    {
        let c = s.get_char(j);
        if !(c == ' ' || c == '\n' || c == '\r' || c == '\t') {
            break ;
        }
        j = j + 1;
    }
    proof {
        assert(skip_ws(s@, j as int) == j as int);
    }
    j
}

/// Whether the token occurs at exactly the given index, executably.
fn exec_match_lit(s: &str, i: usize, tok: &str, n: usize) -> (b: bool)
    requires
        n == s@.len(),
        i <= n,
    ensures
        b == match_at(s@, i as int, tok@),
{
    let m = tok.unicode_len();
    if m > n - i {
        return false;
    }
    let mut k: usize = 0;
    while k < m
        invariant
            n == s@.len(),
            m == tok@.len(),
            i + m <= n,
            0 <= k <= m,
            forall|t: int| 0 <= t < k ==> s@[i + t] == tok@[t],
        decreases m - k,
    {
        if s.get_char(i + k) != tok.get_char(k) {
            proof {
                assert(s@.subrange(i as int, i + m)[k as int] != tok@[k as int]);
            }
            return false;
        }
        k = k + 1;
    }
    proof {
        assert(s@.subrange(i as int, i + m) =~= tok@);
    }
    true
}

/// Skip whitespace, then require the token, executably.
fn exec_expect_tok(s: &str, i: usize, tok: &str, n: usize) -> (r: Option<usize>)
    requires
        n == s@.len(),
        i <= n,
    ensures
        match r {
            Some(j) => expect_tok(s@, i as int, tok@) == Some(j as int) && j <= n,
            None => expect_tok(s@, i as int, tok@) is None,
        },
{
    let j = exec_skip_ws(s, i, n);
    if exec_match_lit(s, j, tok, n) {
        let m = tok.unicode_len();
        Some(j + m)
    } else {
        None
    }
}

/// Skip whitespace, then read a boolean literal, executably.
fn exec_parse_bool(s: &str, i: usize, n: usize) -> (r: Option<(bool, usize)>)
    requires
        n == s@.len(),
        i <= n,
    ensures
        match r {
            Some((b, j)) => parse_bool_token(s@, i as int) == Some((b, j as int)) && j <= n,
            None => parse_bool_token(s@, i as int) is None,
        },
{
    proof {
        lemma_literal_tokens();
    }
    let j = exec_skip_ws(s, i, n);
    if exec_match_lit(s, j, "true", n) {
        Some((true, j + 4))
    } else if exec_match_lit(s, j, "false", n) {
        Some((false, j + 5))
    } else {
        None
    }
}

/// Read one `"key": bool` field, executably.
fn exec_parse_field(s: &str, i: usize, key: &str, n: usize) -> (r: Option<(bool, usize)>)
    requires
        n == s@.len(),
        i <= n,
    ensures
        match r {
            Some((b, j)) => parse_field(s@, i as int, key@) == Some((b, j as int)) && j <= n,
            None => parse_field(s@, i as int, key@) is None,
        },
{
    proof {
        lemma_literal_tokens();
    }
    match exec_expect_tok(s, i, key, n) {
        None => None,
        Some(j) => match exec_expect_tok(s, j, ":", n) {
            None => None,
            Some(k) => exec_parse_bool(s, k, n),
        },
    }
}

/// Decode text as a project scope.  Succeeds exactly on text matching the
/// scope grammar, and then returns exactly the three booleans the text
/// spells out.
pub fn decode_project_scope(s: &str) -> (r: Option<ProjectScope>)
    ensures
        r == spec_decode_scope(s@),
{
    proof {
        lemma_literal_tokens();
    }
    let n = s.unicode_len();
    let i = match exec_expect_tok(s, 0, "{", n) {
        None => {
            return None;
        },
        Some(i) => i,
    };
    let (crud, j) = match exec_parse_field(s, i, "\"is_crud_required\"", n) {
        None => {
            return None;
        },
        Some(r) => r,
    };
    let k = match exec_expect_tok(s, j, ",", n) {
        None => {
            return None;
        },
        Some(k) => k,
    };
    let (login, l) = match exec_parse_field(s, k, "\"is_user_login_and_logout\"", n) {
        None => {
            return None;
        },
        Some(r) => r,
    };
    let m = match exec_expect_tok(s, l, ",", n) {
        None => {
            return None;
        },
        Some(m) => m,
    };
    let (urls, p) = match exec_parse_field(s, m, "\"is_external_urls_required\"", n) {
        None => {
            return None;
        },
        Some(r) => r,
    };
    let q = match exec_expect_tok(s, p, "}", n) {
        None => {
            return None;
        },
        Some(q) => q,
    };
    let end = exec_skip_ws(s, q, n);
    if end == n {
        Some(
            ProjectScope {
                is_crud_required: crud,
                is_user_login_and_logout: login,
                is_external_urls_required: urls,
            },
        )
    } else {
        None
    }
}

/// Encode a scope in its canonical form.
pub fn encode_project_scope(scope: &ProjectScope) -> (r: String)
    ensures
        r@ == spec_encode_scope(*scope),
{
    proof {
        lemma_literal_tokens();
    }
    let mut out = String::from_str("{");
    out.append("\"is_crud_required\"");
    out.append(":");
    out.append(if scope.is_crud_required { "true" } else { "false" });
    out.append(",");
    out.append("\"is_user_login_and_logout\"");
    out.append(":");
    out.append(if scope.is_user_login_and_logout { "true" } else { "false" });
    out.append(",");
    out.append("\"is_external_urls_required\"");
    out.append(":");
    out.append(if scope.is_external_urls_required { "true" } else { "false" });
    out.append("}");
    out
}

/// Find the closing quote of a string body, executably.
fn exec_scan_string(s: &str, i: usize, n: usize) -> (r: Option<usize>)
    requires
        n == s@.len(),
        i <= n,
    ensures
        match r {
            Some(j) => scan_string(s@, i as int) == Some(j as int) && i <= j < n,
            None => scan_string(s@, i as int) is None,
        },
    decreases n - i,
{
    if i >= n {
        return None;
    }
    let c = s.get_char(i);
    if c == '"' {
        Some(i)
    } else if c == '\\' {
        None
    } else {
        exec_scan_string(s, i + 1, n)
    }
}

/// Parse one quoted string standing exactly at `i`, executably.
fn exec_parse_string(s: &str, i: usize, n: usize) -> (r: Option<(String, usize)>)
    requires
        n == s@.len(),
        i <= n,
    ensures
        match r {
            Some(p) => parse_string_at(s@, i as int) == Some((p.0@, p.1 as int)) && i < p.1 <= n,
            None => parse_string_at(s@, i as int) is None,
        },
{
    if i >= n {
        return None;
    }
    if s.get_char(i) != '"' {
        return None;
    }
    match exec_scan_string(s, i + 1, n) {
        None => None,
        Some(j) => {
            let item = s.substring_char(i + 1, j).to_owned();
            Some((item, j + 1))
        },
    }
}

/// Parse one or more comma-separated quoted strings, executably.
fn exec_parse_items(s: &str, i: usize, n: usize) -> (r: Option<(Vec<String>, usize)>)
    requires
        n == s@.len(),
        i <= n,
    ensures
        match r {
            Some(p) => parse_items(s@, i as int) == Some((p.0.deep_view(), p.1 as int)) && p.1
                <= n,
            None => parse_items(s@, i as int) is None,
        },
    decreases n - i,
{
    let j = exec_skip_ws(s, i, n);
    match exec_parse_string(s, j, n) {
        None => None,
        Some((item, k)) => {
            let l = exec_skip_ws(s, k, n);
            if l < n && s.get_char(l) == ',' {
                match exec_parse_items(s, l + 1, n) {
                    None => None,
                    Some((rest, end)) => {
                        let ghost spec_item: Seq<char> = item@;
                        let ghost spec_rest: Seq<Seq<char>> = rest.deep_view();
                        let mut items = rest;
                        items.insert(0, item);
                        proof {
                            assert(items.deep_view() =~= seq![spec_item] + spec_rest);
                        }
                        Some((items, end))
                    },
                }
            } else {
                let ghost spec_item: Seq<char> = item@;
                let mut items: Vec<String> = Vec::new();
                items.push(item);
                proof {
                    assert(items.deep_view() =~= seq![spec_item]);
                }
                Some((items, k))
            }
        },
    }
}

/// Decode text as a list of strings.  Succeeds exactly on text matching
/// the URL-list grammar, and then returns exactly the strings the text
/// spells out, in order.
pub fn decode_string_list(s: &str) -> (r: Option<Vec<String>>)
    ensures
        match r {
            Some(items) => spec_decode_string_list(s@) == Some(items.deep_view()),
            None => spec_decode_string_list(s@) is None,
        },
{
    proof {
        lemma_literal_tokens();
    }
    let n = s.unicode_len();
    let i = exec_skip_ws(s, 0, n);
    if !exec_match_lit(s, i, "[", n) {
        return None;
    }
    let j = exec_skip_ws(s, i + 1, n);
    if exec_match_lit(s, j, "]", n) {
        let e = exec_skip_ws(s, j + 1, n);
        if e == n {
            let items: Vec<String> = Vec::new();
            proof {
                assert(items.deep_view() =~= Seq::<Seq<char>>::empty());
            }
            return Some(items);
        } else {
            return None;
        }
    }
    match exec_parse_items(s, i + 1, n) {
        None => None,
        Some((items, k)) => {
            let l = exec_skip_ws(s, k, n);
            if exec_match_lit(s, l, "]", n) {
                let e = exec_skip_ws(s, l + 1, n);
                if e == n {
                    Some(items)
                } else {
                    None
                }
            } else {
                None
            }
        },
    }
}

/// Append the quoted, comma-separated items from index `i` on.
fn exec_encode_items_from(items: &Vec<String>, i: usize, out: &mut String)
    requires
        i <= items@.len(),
    ensures
        final(out)@ == old(out)@ + spec_encode_items_from(items.deep_view(), i as int),
    decreases items@.len() - i,
{
    if i < items.len() {
        out.append("\"");
        out.append(items[i].as_str());
        out.append("\"");
        proof {
            lemma_literal_tokens();
            assert(items.deep_view()[i as int] == items@[i as int]@);
        }
        if i + 1 < items.len() {
            out.append(",");
            exec_encode_items_from(items, i + 1, out);
        }
    }
}

/// Encode a list of strings in its canonical form.
pub fn encode_string_list(items: &Vec<String>) -> (r: String)
    ensures
        r@ == spec_encode_string_list(items.deep_view()),
{
    proof {
        lemma_literal_tokens();
    }
    let mut out = String::from_str("[");
    exec_encode_items_from(items, 0, &mut out);
    out.append("]");
    out
}

/// A token standing at `pre.len()` is found there: skipping whitespace
/// stops at its first character and the token matches.
proof fn lemma_expect_tok_concat(pre: Seq<char>, tok: Seq<char>, rest: Seq<char>)
    requires
        tok.len() > 0,
        !is_json_ws(tok[0]),
    ensures
        expect_tok(pre + tok + rest, pre.len() as int, tok) == Some((pre.len() + tok.len()) as int),
{
    let s = pre + tok + rest;
    let i = pre.len() as int;
    assert(s[i] == tok[0]);
    assert(skip_ws(s, i) == i);
    assert(s.subrange(i, i + tok.len()) =~= tok);
}

/// A boolean literal standing at `pre.len()` parses to its value.
proof fn lemma_parse_bool_concat(pre: Seq<char>, b: bool, rest: Seq<char>)
    ensures
        parse_bool_token(pre + spec_bool_seq(b) + rest, pre.len() as int) == Some(
            (b, (pre.len() + spec_bool_seq(b).len()) as int),
        ),
{
    let s = pre + spec_bool_seq(b) + rest;
    let i = pre.len() as int;
    assert(s[i] == spec_bool_seq(b)[0]);
    assert(skip_ws(s, i) == i);
    if b {
        assert(s.subrange(i, i + 4) =~= true_seq());
    } else {
        if i + 4 <= s.len() && s.subrange(i, i + 4) == true_seq() {
            assert(s.subrange(i, i + 4)[0] == 't');
            assert(false);
        }
        assert(s.subrange(i, i + 5) =~= false_seq());
    }
}

/// The token and boolean positions the grammar visits inside the canonical
/// encoding of `scope`, numbered from the object's opening brace.
#[verifier::rlimit(100)]
proof fn lemma_rt_positions(scope: ProjectScope)
    ensures
        expect_tok(spec_encode_scope(scope), 0, seq!['{']) == Some(1int),
        parse_field(spec_encode_scope(scope), 1, key_crud()) == Some(
            (scope.is_crud_required, 20 + spec_bool_seq(scope.is_crud_required).len() as int),
        ),
{
    let t1 = spec_bool_seq(scope.is_crud_required);
    let t2 = spec_bool_seq(scope.is_user_login_and_logout);
    let t3 = spec_bool_seq(scope.is_external_urls_required);
    let s = spec_encode_scope(scope);
    assert(key_crud().len() == 18);
    assert(key_login().len() == 26);
    assert(key_urls().len() == 27);

    let p1 = seq!['{'];
    let p2 = p1 + key_crud();
    let p3 = p2 + seq![':'];
    let p4 = p3 + t1;
    let p5 = p4 + seq![','];
    let p6 = p5 + key_login();
    let p7 = p6 + seq![':'];
    let p8 = p7 + t2;
    let p9 = p8 + seq![','];
    let p10 = p9 + key_urls();
    let p11 = p10 + seq![':'];
    let p12 = p11 + t3;

    let r12 = seq!['}'];
    let r11 = t3 + r12;
    let r10 = seq![':'] + r11;
    let r9 = key_urls() + r10;
    let r8 = seq![','] + r9;
    let r7 = t2 + r8;
    let r6 = seq![':'] + r7;
    let r5 = key_login() + r6;
    let r4 = seq![','] + r5;
    let r3 = t1 + r4;
    let r2 = seq![':'] + r3;
    let r1 = key_crud() + r2;

    // The encoding, re-associated around each successive prefix.
    assert(s == p12 + r12);
    lemma_concat_associative(p11, t3, r12);
    assert(s == p11 + r11);
    lemma_concat_associative(p10, seq![':'], r11);
    assert(s == p10 + r10);
    lemma_concat_associative(p9, key_urls(), r10);
    assert(s == p9 + r9);
    lemma_concat_associative(p8, seq![','], r9);
    assert(s == p8 + r8);
    lemma_concat_associative(p7, t2, r8);
    assert(s == p7 + r7);
    lemma_concat_associative(p6, seq![':'], r7);
    assert(s == p6 + r6);
    lemma_concat_associative(p5, key_login(), r6);
    assert(s == p5 + r5);
    lemma_concat_associative(p4, seq![','], r5);
    assert(s == p4 + r4);
    lemma_concat_associative(p3, t1, r4);
    assert(s == p3 + r3);
    lemma_concat_associative(p2, seq![':'], r3);
    assert(s == p2 + r2);
    lemma_concat_associative(p1, key_crud(), r2);
    assert(s == p1 + r1);
    assert(Seq::<char>::empty() + p1 =~= p1);
    lemma_concat_associative(Seq::empty(), p1, r1);
    assert(s == Seq::<char>::empty() + p1 + r1);

    // Walk the grammar down the opening brace and the first field.
    lemma_expect_tok_concat(Seq::empty(), p1, r1);
    assert(expect_tok(s, 0, seq!['{']) == Some(1int));

    lemma_expect_tok_concat(p1, key_crud(), r2);
    assert(expect_tok(s, 1, key_crud()) == Some(19int));

    lemma_expect_tok_concat(p2, seq![':'], r3);
    assert(expect_tok(s, 19, seq![':']) == Some(20int));

    lemma_parse_bool_concat(p3, scope.is_crud_required, r4);
    let j1 = 20 + t1.len() as int;
    assert(parse_bool_token(s, 20) == Some((scope.is_crud_required, j1)));
    assert(parse_field(s, 1, key_crud()) == Some((scope.is_crud_required, j1)));
}

/// The comma after the first field and the second field of the canonical
/// encoding, at their positions inside it.
#[verifier::rlimit(100)]
proof fn lemma_rt_positions_mid(scope: ProjectScope)
    ensures
        expect_tok(
            spec_encode_scope(scope),
            20 + spec_bool_seq(scope.is_crud_required).len() as int,
            seq![','],
        ) == Some(21 + spec_bool_seq(scope.is_crud_required).len() as int),
        parse_field(
            spec_encode_scope(scope),
            21 + spec_bool_seq(scope.is_crud_required).len() as int,
            key_login(),
        ) == Some(
            (
                scope.is_user_login_and_logout,
                48 + spec_bool_seq(scope.is_crud_required).len() + spec_bool_seq(
                    scope.is_user_login_and_logout,
                ).len() as int,
            ),
        ),
{
    let t1 = spec_bool_seq(scope.is_crud_required);
    let t2 = spec_bool_seq(scope.is_user_login_and_logout);
    let t3 = spec_bool_seq(scope.is_external_urls_required);
    let s = spec_encode_scope(scope);
    assert(key_crud().len() == 18);
    assert(key_login().len() == 26);
    assert(key_urls().len() == 27);

    let p1 = seq!['{'];
    let p2 = p1 + key_crud();
    let p3 = p2 + seq![':'];
    let p4 = p3 + t1;
    let p5 = p4 + seq![','];
    let p6 = p5 + key_login();
    let p7 = p6 + seq![':'];
    let p8 = p7 + t2;
    let p9 = p8 + seq![','];
    let p10 = p9 + key_urls();
    let p11 = p10 + seq![':'];
    let p12 = p11 + t3;

    let r12 = seq!['}'];
    let r11 = t3 + r12;
    let r10 = seq![':'] + r11;
    let r9 = key_urls() + r10;
    let r8 = seq![','] + r9;
    let r7 = t2 + r8;
    let r6 = seq![':'] + r7;
    let r5 = key_login() + r6;
    let r4 = seq![','] + r5;

    assert(s == p12 + r12);
    lemma_concat_associative(p11, t3, r12);
    assert(s == p11 + r11);
    lemma_concat_associative(p10, seq![':'], r11);
    assert(s == p10 + r10);
    lemma_concat_associative(p9, key_urls(), r10);
    assert(s == p9 + r9);
    lemma_concat_associative(p8, seq![','], r9);
    assert(s == p8 + r8);
    lemma_concat_associative(p7, t2, r8);
    assert(s == p7 + r7);
    lemma_concat_associative(p6, seq![':'], r7);
    assert(s == p6 + r6);
    lemma_concat_associative(p5, key_login(), r6);
    assert(s == p5 + r5);
    lemma_concat_associative(p4, seq![','], r5);
    assert(s == p4 + r4);

    let j1 = 20 + t1.len() as int;
    assert(p4.len() == j1);

    lemma_expect_tok_concat(p4, seq![','], r5);
    assert(expect_tok(s, j1, seq![',']) == Some(j1 + 1));

    lemma_expect_tok_concat(p5, key_login(), r6);
    assert(expect_tok(s, j1 + 1, key_login()) == Some(j1 + 27));

    lemma_expect_tok_concat(p6, seq![':'], r7);
    assert(expect_tok(s, j1 + 27, seq![':']) == Some(j1 + 28));

    lemma_parse_bool_concat(p7, scope.is_user_login_and_logout, r8);
    let j2 = j1 + 28 + t2.len() as int;
    assert(parse_bool_token(s, j1 + 28) == Some((scope.is_user_login_and_logout, j2)));
    assert(parse_field(s, j1 + 1, key_login()) == Some((scope.is_user_login_and_logout, j2)));
}

/// The comma after the second field, the third field and the closing brace
/// of the canonical encoding, which it ends with.
#[verifier::rlimit(100)]
proof fn lemma_rt_positions_tail(scope: ProjectScope)
    ensures
        expect_tok(
            spec_encode_scope(scope),
            48 + spec_bool_seq(scope.is_crud_required).len() + spec_bool_seq(
                scope.is_user_login_and_logout,
            ).len() as int,
            seq![','],
        ) == Some(
            49 + spec_bool_seq(scope.is_crud_required).len() + spec_bool_seq(
                scope.is_user_login_and_logout,
            ).len() as int,
        ),
        parse_field(
            spec_encode_scope(scope),
            49 + spec_bool_seq(scope.is_crud_required).len() + spec_bool_seq(
                scope.is_user_login_and_logout,
            ).len() as int,
            key_urls(),
        ) == Some(
            (
                scope.is_external_urls_required,
                77 + spec_bool_seq(scope.is_crud_required).len() + spec_bool_seq(
                    scope.is_user_login_and_logout,
                ).len() + spec_bool_seq(scope.is_external_urls_required).len() as int,
            ),
        ),
        expect_tok(
            spec_encode_scope(scope),
            77 + spec_bool_seq(scope.is_crud_required).len() + spec_bool_seq(
                scope.is_user_login_and_logout,
            ).len() + spec_bool_seq(scope.is_external_urls_required).len() as int,
            seq!['}'],
        ) == Some(
            78 + spec_bool_seq(scope.is_crud_required).len() + spec_bool_seq(
                scope.is_user_login_and_logout,
            ).len() + spec_bool_seq(scope.is_external_urls_required).len() as int,
        ),
        spec_encode_scope(scope).len() == 78 + spec_bool_seq(scope.is_crud_required).len()
            + spec_bool_seq(scope.is_user_login_and_logout).len() + spec_bool_seq(
            scope.is_external_urls_required,
        ).len(),
{
    let t1 = spec_bool_seq(scope.is_crud_required);
    let t2 = spec_bool_seq(scope.is_user_login_and_logout);
    let t3 = spec_bool_seq(scope.is_external_urls_required);
    let s = spec_encode_scope(scope);
    assert(key_crud().len() == 18);
    assert(key_login().len() == 26);
    assert(key_urls().len() == 27);

    let p1 = seq!['{'];
    let p2 = p1 + key_crud();
    let p3 = p2 + seq![':'];
    let p4 = p3 + t1;
    let p5 = p4 + seq![','];
    let p6 = p5 + key_login();
    let p7 = p6 + seq![':'];
    let p8 = p7 + t2;
    let p9 = p8 + seq![','];
    let p10 = p9 + key_urls();
    let p11 = p10 + seq![':'];
    let p12 = p11 + t3;

    let r12 = seq!['}'];
    let r11 = t3 + r12;
    let r10 = seq![':'] + r11;
    let r9 = key_urls() + r10;
    let r8 = seq![','] + r9;

    assert(s == p12 + r12);
    lemma_concat_associative(p11, t3, r12);
    assert(s == p11 + r11);
    lemma_concat_associative(p10, seq![':'], r11);
    assert(s == p10 + r10);
    lemma_concat_associative(p9, key_urls(), r10);
    assert(s == p9 + r9);
    lemma_concat_associative(p8, seq![','], r9);
    assert(s == p8 + r8);

    let j2 = 48 + t1.len() + t2.len() as int;
    assert(p8.len() == j2);

    lemma_expect_tok_concat(p8, seq![','], r9);
    assert(expect_tok(s, j2, seq![',']) == Some(j2 + 1));

    lemma_expect_tok_concat(p9, key_urls(), r10);
    assert(expect_tok(s, j2 + 1, key_urls()) == Some(j2 + 28));

    lemma_expect_tok_concat(p10, seq![':'], r11);
    assert(expect_tok(s, j2 + 28, seq![':']) == Some(j2 + 29));

    lemma_parse_bool_concat(p11, scope.is_external_urls_required, r12);
    let j3 = j2 + 29 + t3.len() as int;
    assert(parse_bool_token(s, j2 + 29) == Some((scope.is_external_urls_required, j3)));
    assert(parse_field(s, j2 + 1, key_urls()) == Some((scope.is_external_urls_required, j3)));
    assert(p12.len() == j3);

    assert(p12 + r12 + Seq::<char>::empty() =~= p12 + r12);
    lemma_expect_tok_concat(p12, seq!['}'], Seq::empty());
    assert(expect_tok(s, j3, seq!['}']) == Some(j3 + 1));
    assert(s.len() == j3 + 1);
}

/// Decoding the canonical encoding of any scope gives that scope back:
/// the codec round-trips all three boolean fields unchanged.
pub proof fn lemma_scope_round_trip(scope: ProjectScope)
    ensures
        spec_decode_scope(spec_encode_scope(scope)) == Some(scope),
{
    let s = spec_encode_scope(scope);
    let t1 = spec_bool_seq(scope.is_crud_required);
    let t2 = spec_bool_seq(scope.is_user_login_and_logout);
    let t3 = spec_bool_seq(scope.is_external_urls_required);
    lemma_rt_positions(scope);
    lemma_rt_positions_mid(scope);
    lemma_rt_positions_tail(scope);
    let j3 = 77 + t1.len() + t2.len() + t3.len() as int;
    assert(skip_ws(s, j3 + 1) == j3 + 1);
    assert(spec_decode_scope(s) == Some(scope));
}

} // verus!
