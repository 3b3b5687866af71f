//! The signature parser: from source text to an ordered sequence of
//! declarations, or a located syntax error.
//!
//! The grammar, written as recursive descent over a sequence of characters:
//!
//! ```text
//! file        := blank*, declaration, { separator, declaration }, blank*
//! declaration := "def", space+, identifier, ":", space*, arglist, space*, "->", space*, identifier
//! arglist     := "(", space*, ")"
//!              | "(", space*, identifier, space*, { ",", space*, identifier, space* }, ")"
//! identifier  := (letter | "_"), { letter | digit | "_" }
//! separator   := space*, newline+, space*
//! ```
//!
//! The spec functions `sp_*` below are the authoritative statement of this
//! grammar; every executable parsing function is proved to return exactly what
//! the corresponding spec function denotes. Parsing is total: input that the
//! grammar does not match is reported as a [`SyntaxError`] carrying the offset
//! (in characters) of the innermost failing rule, and trailing input that is
//! not blank is an error, never ignored.

use vstd::prelude::*;
use crate::decl::{DeclModel, FuncDef};
use crate::text::{
    is_space,
    is_blank,
    is_ident_start,
    is_ident_char,
    space_char,
    blank_char,
    ident_start_char,
    ident_char,
};

verus! {

/// The grammar rule that a syntax error expected to apply at its offset.
#[derive(Debug, Clone, Copy, PartialEq, Eq, Structural)]
pub enum Expected {
    /// The keyword `def`.
    DefKeyword,
    /// At least one space after `def`.
    Whitespace,
    /// An identifier.
    Identifier,
    /// The `:` after the declaration name.
    Colon,
    /// The `(` opening an argument list.
    OpenParen,
    /// The `)` closing an argument list.
    CloseParen,
    /// The `->` before the return type.
    Arrow,
    /// End of input (or a declaration separator followed by a declaration).
    EndOfInput,
}

/// A located parse failure: the character offset at which the innermost
/// grammar rule failed, and that rule.
#[derive(Debug, Clone, Copy, PartialEq, Eq, Structural)]
pub struct SyntaxError {
    pub offset: usize,
    pub expected: Expected,
}

/// First position at or after `i` whose character is not a space.
pub open spec fn scan_spaces(s: Seq<char>, i: int) -> int
    decreases s.len() - i,
{
    if 0 <= i < s.len() && is_space(s[i]) {
        scan_spaces(s, i + 1)
    } else {
        i
    }
}

/// First position at or after `i` whose character is not blank.
pub open spec fn scan_blank(s: Seq<char>, i: int) -> int
    decreases s.len() - i,
{
    if 0 <= i < s.len() && is_blank(s[i]) {
        scan_blank(s, i + 1)
    } else {
        i
    }
}

/// First position at or after `i` whose character is not a newline.
pub open spec fn scan_newlines(s: Seq<char>, i: int) -> int
    decreases s.len() - i,
{
    if 0 <= i < s.len() && s[i] == '\n' {
        scan_newlines(s, i + 1)
    } else {
        i
    }
}

/// First position at or after `i` whose character is not an identifier
/// character.
pub open spec fn scan_idents(s: Seq<char>, i: int) -> int
    decreases s.len() - i,
{
    if 0 <= i < s.len() && is_ident_char(s[i]) {
        scan_idents(s, i + 1)
    } else {
        i
    }
}

/// Matches the literal `t` at position `i`; on success, the position after it.
pub open spec fn sp_tag(s: Seq<char>, i: int, t: Seq<char>) -> Option<int> {
    if 0 <= i && i + t.len() <= s.len() && s.subrange(i, i + t.len()) == t {
        Some(i + t.len())
    } else {
        None
    }
}

/// Matches one identifier at position `i`: the maximal run of identifier
/// characters starting with a letter or underscore.
pub open spec fn sp_symbol(s: Seq<char>, i: int) -> Option<(int, Seq<char>)> {
    if 0 <= i < s.len() && is_ident_start(s[i]) {
        Some((scan_idents(s, i + 1), s.subrange(i, scan_idents(s, i + 1))))
    } else {
        None
    }
}

/// Matches at least one space at position `i`, then any further spaces.
pub open spec fn sp_space1(s: Seq<char>, i: int) -> Option<int> {
    if 0 <= i < s.len() && is_space(s[i]) {
        Some(scan_spaces(s, i))
    } else {
        None
    }
}

/// After the first argument type of a non-empty list: zero or more
/// `, identifier` groups, then the closing parenthesis.
pub open spec fn sp_argtail(s: Seq<char>, i: int, acc: Seq<Seq<char>>) -> Option<
    (int, Seq<Seq<char>>),
>
    decreases s.len() - i,
{
    if 0 <= i < s.len() && s[i] == ',' {
        let i1 = scan_spaces(s, i + 1);
        match sp_symbol(s, i1) {
            None => None,
            Some((i2, w)) => {
                let i3 = scan_spaces(s, i2);
                if i < i3 <= s.len() {
                    sp_argtail(s, i3, acc.push(w))
                } else {
                    None
                }
            },
        }
    } else if 0 <= i < s.len() && s[i] == ')' {
        Some((i + 1, acc))
    } else {
        None
    }
}

/// A parenthesized, comma-separated, possibly empty list of type names.
pub open spec fn sp_arglist(s: Seq<char>, i: int) -> Option<(int, Seq<Seq<char>>)> {
    match sp_tag(s, i, "("@) {
        None => None,
        Some(i1) => {
            let i2 = scan_spaces(s, i1);
            if i2 < s.len() && s[i2] == ')' {
                Some((i2 + 1, Seq::empty()))
            } else {
                match sp_symbol(s, i2) {
                    None => None,
                    Some((i3, w)) => sp_argtail(s, scan_spaces(s, i3), seq![w]),
                }
            }
        },
    }
}

/// One whole declaration starting at position `i`.
pub open spec fn sp_decl(s: Seq<char>, i: int) -> Option<(int, DeclModel)> {
    match sp_tag(s, i, "def"@) {
        None => None,
        Some(i1) => match sp_space1(s, i1) {
            None => None,
            Some(i2) => match sp_symbol(s, i2) {
                None => None,
                Some((i3, name)) => match sp_tag(s, i3, ":"@) {
                    None => None,
                    Some(i4) => match sp_arglist(s, scan_spaces(s, i4)) {
                        None => None,
                        Some((i6, args)) => match sp_tag(s, scan_spaces(s, i6), "->"@) {
                            None => None,
                            Some(i8) => match sp_symbol(s, scan_spaces(s, i8)) {
                                None => None,
                                Some((i10, ret)) => Some((i10, DeclModel { name, args, ret })),
                            },
                        },
                    },
                },
            },
        },
    }
}

/// A declaration separator: optional spaces, at least one newline, optional
/// spaces.
pub open spec fn sp_sep(s: Seq<char>, i: int) -> Option<int> {
    let j = scan_spaces(s, i);
    if j < s.len() && s[j] == '\n' {
        Some(scan_spaces(s, scan_newlines(s, j)))
    } else {
        None
    }
}

/// One or more declarations separated by separators. A separator that is not
/// followed by a further declaration is left unconsumed.
pub open spec fn sp_decls(s: Seq<char>, i: int) -> Option<(int, Seq<DeclModel>)>
    decreases s.len() - i,
{
    match sp_decl(s, i) {
        None => None,
        Some((j, d)) => match sp_sep(s, j) {
            None => Some((j, seq![d])),
            Some(k) => if i < k <= s.len() {
                match sp_decls(s, k) {
                    None => Some((j, seq![d])),
                    Some((m, ds)) => Some((m, seq![d] + ds)),
                }
            } else {
                Some((j, seq![d]))
            },
        },
    }
}

/// A whole source file: leading blank space, one or more declarations, and
/// nothing but blank space after the last one.
pub open spec fn sp_file(s: Seq<char>) -> Option<Seq<DeclModel>> {
    match sp_decls(s, scan_blank(s, 0)) {
        None => None,
        Some((j, ds)) => if scan_blank(s, j) == s.len() {
            Some(ds)
        } else {
            None
        },
    }
}

/// The located failure of the argument-list tail when it does not match at
/// `i`: the innermost failing rule and its offset. Meaningful only where
/// [`sp_argtail`] is `None`.
pub open spec fn sp_argtail_err(s: Seq<char>, i: int) -> SyntaxError
    recommends
        sp_argtail(s, i, Seq::empty()) is None,
    decreases s.len() - i,
{
    if 0 <= i < s.len() && s[i] == ',' {
        let i1 = scan_spaces(s, i + 1);
        match sp_symbol(s, i1) {
            None => SyntaxError { offset: i1 as usize, expected: Expected::Identifier },
            Some((i2, _)) => {
                let i3 = scan_spaces(s, i2);
                if i < i3 <= s.len() {
                    sp_argtail_err(s, i3)
                } else {
                    SyntaxError { offset: i as usize, expected: Expected::CloseParen }
                }
            },
        }
    } else {
        SyntaxError { offset: i as usize, expected: Expected::CloseParen }
    }
}

/// The located failure of the argument-list rule when it does not match at
/// `i`. Meaningful only where [`sp_arglist`] is `None`.
pub open spec fn sp_arglist_err(s: Seq<char>, i: int) -> SyntaxError
    recommends
        sp_arglist(s, i) is None,
{
    match sp_tag(s, i, "("@) {
        None => SyntaxError { offset: i as usize, expected: Expected::OpenParen },
        Some(i1) => {
            let i2 = scan_spaces(s, i1);
            match sp_symbol(s, i2) {
                None => SyntaxError { offset: i2 as usize, expected: Expected::Identifier },
                Some((i3, _)) => sp_argtail_err(s, scan_spaces(s, i3)),
            }
        },
    }
}

/// The located failure of the declaration rule when it does not match at `i`:
/// the innermost grammar rule that failed, and the offset at which it
/// expected its first character. Meaningful only where [`sp_decl`] is `None`.
pub open spec fn sp_decl_err(s: Seq<char>, i: int) -> SyntaxError
    recommends
        sp_decl(s, i) is None,
{
    match sp_tag(s, i, "def"@) {
        None => SyntaxError { offset: i as usize, expected: Expected::DefKeyword },
        Some(i1) => match sp_space1(s, i1) {
            None => SyntaxError { offset: i1 as usize, expected: Expected::Whitespace },
            Some(i2) => match sp_symbol(s, i2) {
                None => SyntaxError { offset: i2 as usize, expected: Expected::Identifier },
                Some((i3, _)) => match sp_tag(s, i3, ":"@) {
                    None => SyntaxError { offset: i3 as usize, expected: Expected::Colon },
                    Some(i4) => match sp_arglist(s, scan_spaces(s, i4)) {
                        None => sp_arglist_err(s, scan_spaces(s, i4)),
                        Some((i6, _)) => match sp_tag(s, scan_spaces(s, i6), "->"@) {
                            None => SyntaxError {
                                offset: scan_spaces(s, i6) as usize,
                                expected: Expected::Arrow,
                            },
                            Some(i8) => SyntaxError {
                                offset: scan_spaces(s, i8) as usize,
                                expected: Expected::Identifier,
                            },
                        },
                    },
                },
            },
        },
    }
}

/// The located failure of the file rule when it does not match: the first
/// declaration's innermost failure, or the offset of the first trailing
/// non-blank character. Meaningful only where [`sp_file`] is `None`.
pub open spec fn sp_file_err(s: Seq<char>) -> SyntaxError
    recommends
        sp_file(s) is None,
{
    match sp_decls(s, scan_blank(s, 0)) {
        None => sp_decl_err(s, scan_blank(s, 0)),
        Some((j, _)) => SyntaxError {
            offset: scan_blank(s, j) as usize,
            expected: Expected::EndOfInput,
        },
    }
}

fn skip_spaces(s: &str, n: usize, i: usize) -> (r: usize)
    requires
        n == s@.len(),
        i <= n,
    ensures
        r == scan_spaces(s@, i as int),
        i <= r <= n,
{
    let mut j = i;
    while j < n && space_char(s.get_char(j))
        invariant
            i <= j <= n,
            n == s@.len(),
            scan_spaces(s@, i as int) == scan_spaces(s@, j as int),
        decreases n - j,
    {
        proof {
            assert(scan_spaces(s@, j as int) == scan_spaces(s@, j + 1));
        }
        j += 1;
    }
    j
}

fn skip_blank(s: &str, n: usize, i: usize) -> (r: usize)
    requires
        n == s@.len(),
        i <= n,
    ensures
        r == scan_blank(s@, i as int),
        i <= r <= n,
{
    let mut j = i;
    while j < n && blank_char(s.get_char(j))
        invariant
            i <= j <= n,
            n == s@.len(),
            scan_blank(s@, i as int) == scan_blank(s@, j as int),
        decreases n - j,
    {
        proof {
            assert(scan_blank(s@, j as int) == scan_blank(s@, j + 1));
        }
        j += 1;
    }
    j
}

fn skip_newlines(s: &str, n: usize, i: usize) -> (r: usize)
    requires
        n == s@.len(),
        i <= n,
    ensures
        r == scan_newlines(s@, i as int),
        i <= r <= n,
{
    let mut j = i;
    while j < n && s.get_char(j) == '\n'
        invariant
            i <= j <= n,
            n == s@.len(),
            scan_newlines(s@, i as int) == scan_newlines(s@, j as int),
        decreases n - j,
    {
        proof {
            assert(scan_newlines(s@, j as int) == scan_newlines(s@, j + 1));
        }
        j += 1;
    }
    j
}

fn skip_idents(s: &str, n: usize, i: usize) -> (r: usize)
    requires
        n == s@.len(),
        i <= n,
    ensures
        r == scan_idents(s@, i as int),
        i <= r <= n,
{
    let mut j = i;
    while j < n && ident_char(s.get_char(j))
        invariant
            i <= j <= n,
            n == s@.len(),
            scan_idents(s@, i as int) == scan_idents(s@, j as int),
        decreases n - j,
    {
        proof {
            assert(scan_idents(s@, j as int) == scan_idents(s@, j + 1));
        }
        j += 1;
    }
    j
}

/// Does the literal `t` occur at character position `i` of `s`?
fn match_tag(s: &str, n: usize, i: usize, t: &str, tn: usize) -> (r: bool)
    requires
        n == s@.len(),
        tn == t@.len(),
        i <= n,
    ensures
        r == (sp_tag(s@, i as int, t@) is Some),
{
    if tn > n - i {
        return false;
    }
    let mut k: usize = 0;
    while k < tn
        invariant
            k <= tn,
            i + tn <= n,
            n == s@.len(),
            tn == t@.len(),
            forall|j: int| 0 <= j < k ==> s@[i + j] == t@[j],
        decreases tn - k,
    {
        if s.get_char(i + k) != t.get_char(k) {
            proof {
                assert(s@.subrange(i as int, i + tn)[k as int] != t@[k as int]);
            }
            return false;
        }
        k += 1;
    }
    proof {
        assert(s@.subrange(i as int, i + tn) =~= t@);
    }
    true
}

fn parse_symbol(s: &str, n: usize, i: usize) -> (r: Result<(usize, String), SyntaxError>)
    requires
        n == s@.len(),
        i <= n,
    ensures
        match r {
            Ok((j, w)) => sp_symbol(s@, i as int) == Some(((j as int, w@))) && i < j <= n,
            Err(e) => sp_symbol(s@, i as int) is None && e == (SyntaxError {
                offset: i,
                expected: Expected::Identifier,
            }),
        },
{
    if i < n && ident_start_char(s.get_char(i)) {
        let j = skip_idents(s, n, i + 1);
        let w = String::from_str(s.substring_char(i, j));
        Ok((j, w))
    } else {
        Err(SyntaxError { offset: i, expected: Expected::Identifier })
    }
}

/// Parses one declaration starting exactly at position `i`.
fn parse_decl(s: &str, n: usize, i: usize) -> (r: Result<(usize, FuncDef), SyntaxError>)
    requires
        n == s@.len(),
        i <= n,
    ensures
        match r {
            Ok((j, d)) => sp_decl(s@, i as int) == Some(((j as int, d@))) && i < j <= n,
            Err(e) => sp_decl(s@, i as int) is None && e == sp_decl_err(s@, i as int)
                && e.offset <= n,
        },
{
    proof {
        reveal_strlit("def");
        reveal_strlit(":");
        reveal_strlit("->");
    }
    if !match_tag(s, n, i, "def", 3) {
        return Err(SyntaxError { offset: i, expected: Expected::DefKeyword });
    }
    let i1 = i + 3;
    if !(i1 < n && space_char(s.get_char(i1))) {
        return Err(SyntaxError { offset: i1, expected: Expected::Whitespace });
    }
    let i2 = skip_spaces(s, n, i1);
    let (i3, name) = match parse_symbol(s, n, i2) {
        Ok(v) => v,
        Err(e) => return Err(e),
    };
    if !match_tag(s, n, i3, ":", 1) {
        return Err(SyntaxError { offset: i3, expected: Expected::Colon });
    }
    let i4 = i3 + 1;
    let i5 = skip_spaces(s, n, i4);
    let (i6, args) = match parse_arglist(s, n, i5) {
        Ok(v) => v,
        Err(e) => return Err(e),
    };
    let i7 = skip_spaces(s, n, i6);
    if !match_tag(s, n, i7, "->", 2) {
        return Err(SyntaxError { offset: i7, expected: Expected::Arrow });
    }
    let i8 = i7 + 2;
    let i9 = skip_spaces(s, n, i8);
    let (i10, ret) = match parse_symbol(s, n, i9) {
        Ok(v) => v,
        Err(e) => return Err(e),
    };
    Ok((i10, FuncDef { name, argstype: args, rettype: ret }))
}

fn parse_arglist(s: &str, n: usize, i: usize) -> (r: Result<(usize, Vec<String>), SyntaxError>)
    requires
        n == s@.len(),
        i <= n,
    ensures
        match r {
            Ok((j, ws)) => sp_arglist(s@, i as int) == Some(((j as int, ws.deep_view()))) && i < j
                <= n,
            Err(e) => sp_arglist(s@, i as int) is None && e == sp_arglist_err(s@, i as int)
                && e.offset <= n,
        },
{
    proof {
        reveal_strlit("(");
    }
    if !match_tag(s, n, i, "(", 1) {
        return Err(SyntaxError { offset: i, expected: Expected::OpenParen });
    }
    let i1 = i + 1;
    let i2 = skip_spaces(s, n, i1);
    if i2 < n && s.get_char(i2) == ')' {
        let ws: Vec<String> = Vec::new();
        proof {
            assert(ws.deep_view() =~~= Seq::<Seq<char>>::empty());
        }
        return Ok((i2 + 1, ws));
    }
    let (i3, w) = match parse_symbol(s, n, i2) {
        Ok(v) => v,
        Err(e) => return Err(e),
    };
    let i4 = skip_spaces(s, n, i3);
    let mut ws: Vec<String> = Vec::new();
    ws.push(w);
    proof {
        assert(ws.deep_view() =~~= seq![w@]);
    }
    parse_argtail(s, n, i4, ws)
}

fn parse_argtail(s: &str, n: usize, i: usize, acc: Vec<String>) -> (r: Result<
    (usize, Vec<String>),
    SyntaxError,
>)
    requires
        n == s@.len(),
        i <= n,
    ensures
        match r {
            Ok((j, ws)) => sp_argtail(s@, i as int, acc.deep_view()) == Some(
                ((j as int, ws.deep_view())),
            ) && i < j <= n,
            Err(e) => sp_argtail(s@, i as int, acc.deep_view()) is None && e == sp_argtail_err(
                s@,
                i as int,
            ) && e.offset <= n,
        },
    decreases n - i,
{
    if i < n && s.get_char(i) == ',' {
        let i1 = skip_spaces(s, n, i + 1);
        let (i2, w) = match parse_symbol(s, n, i1) {
            Ok(v) => v,
            Err(e) => return Err(e),
        };
        let i3 = skip_spaces(s, n, i2);
        let mut acc2 = acc;
        let ghost accv = acc2.deep_view();
        acc2.push(w);
        proof {
            assert(acc2.deep_view() =~~= accv.push(w@));
        }
        parse_argtail(s, n, i3, acc2)
    } else if i < n && s.get_char(i) == ')' {
        Ok((i + 1, acc))
    } else {
        Err(SyntaxError { offset: i, expected: Expected::CloseParen })
    }
}

/// Tries to consume a declaration separator at position `i`.
fn try_sep(s: &str, n: usize, i: usize) -> (r: Option<usize>)
    requires
        n == s@.len(),
        i <= n,
    ensures
        match r {
            Some(k) => sp_sep(s@, i as int) == Some(k as int) && i < k <= n,
            None => sp_sep(s@, i as int) is None,
        },
{
    let j = skip_spaces(s, n, i);
    if j < n && s.get_char(j) == '\n' {
        let k = skip_newlines(s, n, j + 1);
        proof {
            assert(scan_newlines(s@, j as int) == scan_newlines(s@, j + 1));
        }
        Some(skip_spaces(s, n, k))
    } else {
        None
    }
}

fn parse_decls(s: &str, n: usize, i: usize) -> (r: Result<(usize, Vec<FuncDef>), SyntaxError>)
    requires
        n == s@.len(),
        i <= n,
    ensures
        match r {
            Ok((j, ds)) => sp_decls(s@, i as int) == Some(((j as int, ds.deep_view()))) && i < j
                <= n,
            Err(e) => sp_decls(s@, i as int) is None && e == sp_decl_err(s@, i as int)
                && e.offset <= n,
        },
    decreases n - i,
{
    let (j, d) = match parse_decl(s, n, i) {
        Ok(v) => v,
        Err(e) => return Err(e),
    };
    match try_sep(s, n, j) {
        None => {
            let ds = vec![d];
            proof {
                assert(ds.deep_view() =~~= seq![d@]);
            }
            Ok((j, ds))
        },
        Some(k) => match parse_decls(s, n, k) {
            Err(_) => {
                let ds = vec![d];
                proof {
                    assert(ds.deep_view() =~~= seq![d@]);
                }
                Ok((j, ds))
            },
            Ok((m, rest)) => {
                let ghost restv = rest.deep_view();
                let mut rest = rest;
                rest.insert(0, d);
                proof {
                    assert(rest.deep_view() =~~= seq![d@] + restv);
                }
                Ok((m, rest))
            },
        },
    }
}

/// Parses one declaration at the very start of `input`; on success also
/// returns the character offset of the first unconsumed character.
pub fn fn_def(input: &str) -> (r: Result<(FuncDef, usize), SyntaxError>)
    ensures
        match r {
            Ok((d, j)) => sp_decl(input@, 0) == Some(((j as int, d@))),
            Err(e) => sp_decl(input@, 0) is None && e == sp_decl_err(input@, 0) && e.offset
                <= input@.len(),
        },
{
    let n = input.unicode_len();
    match parse_decl(input, n, 0) {
        Ok((j, d)) => Ok((d, j)),
        Err(e) => Err(e),
    }
}

/// Parses a whole signature file: leading blank space, one or more
/// declarations separated by newlines, trailing blank space. Any other input
/// is a [`SyntaxError`]; no partially parsed declarations are returned.
pub fn parse(input: &str) -> (r: Result<Vec<FuncDef>, SyntaxError>)
    ensures
        match r {
            Ok(ds) => sp_file(input@) == Some(ds.deep_view()),
            Err(e) => sp_file(input@) is None && e == sp_file_err(input@) && e.offset
                <= input@.len(),
        },
{
    let n = input.unicode_len();
    let i = skip_blank(input, n, 0);
    match parse_decls(input, n, i) {
        Err(e) => Err(e),
        Ok((j, ds)) => {
            let k = skip_blank(input, n, j);
            if k == n {
                Ok(ds)
            } else {
                Err(SyntaxError { offset: k, expected: Expected::EndOfInput })
            }
        },
    }
}

} // verus!
