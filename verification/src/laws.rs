//! The library's laws: proofs that relate the parser, the renderer and the
//! generator beyond each function's own contract.
//!
//! * rendering any well-formed declaration and parsing the result yields
//!   exactly that declaration back ([`lemma_parse_render_roundtrip`]);
//! * non-blank text left after a rendered declaration is a parse error, not
//!   silently ignored ([`lemma_trailing_input_rejected`]);
//! * the empty-parameter-list case has a stable canonical "no parameters"
//!   form in every generation context ([`lemma_empty_parameter_list`]);
//! * an unrecognized type name is rejected by every generation context it
//!   can reach, never silently accepted ([`lemma_unsupported_param_rejected`],
//!   [`lemma_unsupported_ret_rejected`]).

use vstd::prelude::*;
use crate::decl::{DeclModel, args_text, args_text_from, args_text_upto, lemma_args_text_split,
    spec_render};
use crate::gen::{args_decl_text, args_let_vec_text, call_args_text, conv_text, handle_retval_text,
    import_lets_text, imported_body_text, lemma_gen_folds_none, rettype_text, supported_param,
    supported_ret};
use crate::parser::{scan_blank, scan_idents, scan_spaces, sp_argtail, sp_arglist, sp_decl,
    sp_decls, sp_file, sp_symbol};
use crate::text::{is_blank, is_ident_char, is_ident_start, is_space, valid_ident};

verus! {

proof fn lemma_scan_spaces_at(s: Seq<char>, i: int, j: int)
    requires
        0 <= i <= j <= s.len(),
        forall|k: int| i <= k < j ==> is_space(#[trigger] s[k]),
        j == s.len() || !is_space(s[j]),
    ensures
        scan_spaces(s, i) == j,
    decreases j - i,
{
    if i < j {
        lemma_scan_spaces_at(s, i + 1, j);
    }
}

proof fn lemma_scan_blank_at(s: Seq<char>, i: int, j: int)
    requires
        0 <= i <= j <= s.len(),
        forall|k: int| i <= k < j ==> is_blank(#[trigger] s[k]),
        j == s.len() || !is_blank(s[j]),
    ensures
        scan_blank(s, i) == j,
    decreases j - i,
{
    if i < j {
        lemma_scan_blank_at(s, i + 1, j);
    }
}

proof fn lemma_scan_idents_at(s: Seq<char>, i: int, j: int)
    requires
        0 <= i <= j <= s.len(),
        forall|k: int| i <= k < j ==> is_ident_char(#[trigger] s[k]),
        j == s.len() || !is_ident_char(s[j]),
    ensures
        scan_idents(s, i) == j,
    decreases j - i,
{
    if i < j {
        lemma_scan_idents_at(s, i + 1, j);
    }
}

proof fn lemma_symbol_at(s: Seq<char>, i: int, j: int)
    requires
        0 <= i < j <= s.len(),
        valid_ident(s.subrange(i, j)),
        j == s.len() || !is_ident_char(s[j]),
    ensures
        sp_symbol(s, i) == Some((j, s.subrange(i, j))),
{
    let w = s.subrange(i, j);
    assert(s[i] == w[0]);
    assert forall|k: int| i + 1 <= k < j implies is_ident_char(#[trigger] s[k]) by {
        assert(s[k] == w[k - i]);
    }
    lemma_scan_idents_at(s, i + 1, j);
}

proof fn lemma_argtail_at(s: Seq<char>, i: int, args: Seq<Seq<char>>, k: int, acc: Seq<Seq<char>>)
    requires
        0 <= k <= args.len(),
        forall|j: int| 0 <= j < args.len() ==> valid_ident(#[trigger] args[j]),
        0 <= i,
        i + args_text_from(args, k).len() + 1 <= s.len(),
        s.subrange(i, i + args_text_from(args, k).len()) == args_text_from(args, k),
        s[i + args_text_from(args, k).len()] == ')',
    ensures
        sp_argtail(s, i, acc) == Some(
            ((i + args_text_from(args, k).len() + 1, acc + args.skip(k))),
        ),
    decreases args.len() - k,
{
    reveal_strlit(", ");
    let atf = args_text_from(args, k);
    if k >= args.len() {
        assert(atf.len() == 0);
        assert(s[i] == ')');
        assert(acc + args.skip(k) =~= acc);
    } else {
        let w = args[k];
        let lk = w.len() as int;
        let rest = args_text_from(args, k + 1);
        assert(atf == ", "@ + w + rest);
        assert(atf.len() == 2 + lk + rest.len());
        assert forall|m: int| 0 <= m < atf.len() implies s[i + m] == atf[m] by {
            assert(s.subrange(i, i + atf.len())[m] == atf[m]);
        }
        assert forall|m: int| 0 <= m < lk implies atf[2 + m] == w[m] by {
            assert((", "@ + w)[2 + m] == w[m]);
        }
        assert forall|m: int| 0 <= m < rest.len() implies atf[2 + lk + m] == rest[m] by {}
        // The characters at hand: a comma, a space, the identifier, the rest.
        assert(s[i] == atf[0]);
        assert(s[i] == ',');
        assert(s[i + 1] == atf[1]);
        assert(s[i + 1] == ' ');
        assert(s.subrange(i + 2, i + 2 + lk) =~= w);
        // The character after the identifier is a comma or the final ')'.
        if k + 1 < args.len() {
            assert(args_text_from(args, k + 1) == ", "@ + args[k + 1] + args_text_from(
                args,
                k + 2,
            ));
            assert(s[i + 2 + lk] == atf[2 + lk]);
            assert(s[i + 2 + lk] == ',');
        } else {
            assert(rest.len() == 0);
            assert(s[i + 2 + lk] == ')');
        }
        assert(!is_ident_char(s[i + 2 + lk]));
        assert(is_ident_start(w[0]));
        assert(s[i + 2] == w[0]);
        assert(!is_space(s[i + 2]));
        lemma_scan_spaces_at(s, i + 1, i + 2);
        lemma_symbol_at(s, i + 2, i + 2 + lk);
        assert(!is_space(s[i + 2 + lk]));
        lemma_scan_spaces_at(s, i + 2 + lk, i + 2 + lk);
        assert(s.subrange(i + 2 + lk, i + 2 + lk + rest.len()) =~= rest);
        lemma_argtail_at(s, i + 2 + lk, args, k + 1, acc.push(w));
        assert(acc.push(w) + args.skip(k + 1) =~= acc + args.skip(k));
    }
}

#[verifier::rlimit(100)]
proof fn lemma_decl_at_render_prefix(s: Seq<char>, d: DeclModel)
    requires
        d.wf(),
        spec_render(d).len() <= s.len(),
        s.subrange(0, spec_render(d).len() as int) == spec_render(d),
        spec_render(d).len() == s.len() || !is_ident_char(s[spec_render(d).len() as int]),
    ensures
        sp_decl(s, 0) == Some(((spec_render(d).len() as int, d))),
{
    reveal_strlit("def ");
    reveal_strlit("def");
    reveal_strlit(": (");
    reveal_strlit(":");
    reveal_strlit("(");
    reveal_strlit(") -> ");
    reveal_strlit("->");
    reveal_strlit(", ");
    let t = s;
    let nl = d.name.len() as int;
    let aa = args_text(d.args);
    let al = aa.len() as int;
    let rl = d.ret.len() as int;
    let rn = spec_render(d).len() as int;
    assert(rn == 12 + nl + al + rl);
    // Where each character of the rendered prefix comes from.
    assert forall|m: int| 0 <= m < rn implies t[m] == (if m < 4 {
        "def "@[m]
    } else if m < 4 + nl {
        d.name[m - 4]
    } else if m < 7 + nl {
        ": ("@[m - (4 + nl)]
    } else if m < 7 + nl + al {
        aa[m - (7 + nl)]
    } else if m < 12 + nl + al {
        ") -> "@[m - (7 + nl + al)]
    } else {
        d.ret[m - (12 + nl + al)]
    }) by {
        let u1 = "def "@ + d.name;
        let u2 = u1 + ": ("@;
        let u3 = u2 + aa;
        let u4 = u3 + ") -> "@;
        let r = u4 + d.ret;
        assert(spec_render(d) == r);
        assert(s.subrange(0, rn)[m] == r[m]);
        assert(t[m] == r[m]);
        if m < u4.len() {
            assert(r[m] == u4[m]);
            if m < u3.len() {
                assert(u4[m] == u3[m]);
                if m < u2.len() {
                    assert(u3[m] == u2[m]);
                    if m < u1.len() {
                        assert(u2[m] == u1[m]);
                    }
                }
            }
        }
    }
    // Region equalities of the rendered text.
    assert(t.subrange(0, 4) =~= "def "@);
    assert(t.subrange(4, 4 + nl) =~= d.name);
    assert(t.subrange(4 + nl, 7 + nl) =~= ": ("@);
    assert(t.subrange(7 + nl, 7 + nl + al) =~= aa);
    assert(t.subrange(7 + nl + al, 12 + nl + al) =~= ") -> "@);
    assert(t.subrange(12 + nl + al, rn) =~= d.ret);
    // "def" and the mandatory space.
    assert(t.subrange(0, 3) =~= "def"@);
    assert(t[3] == ' ');
    assert(t[4] == d.name[0]);
    assert(is_ident_start(t[4]) && !is_space(t[4]));
    lemma_scan_spaces_at(t, 3, 4);
    // The declaration name, ended by ':'.
    assert(t[4 + nl] == ':');
    assert(!is_ident_char(t[4 + nl]));
    lemma_symbol_at(t, 4, 4 + nl);
    assert(t.subrange(4 + nl, 5 + nl) =~= ":"@);
    // Spaces up to '(' .
    assert(t[5 + nl] == ' ');
    assert(t[6 + nl] == '(');
    assert(!is_space(t[6 + nl]));
    lemma_scan_spaces_at(t, 5 + nl, 6 + nl);
    assert(t.subrange(6 + nl, 7 + nl) =~= "("@);
    // The argument list.
    assert(t[7 + nl + al] == ')');
    if d.args.len() == 0 {
        assert(al == 0);
        assert(!is_space(t[7 + nl]));
        lemma_scan_spaces_at(t, 7 + nl, 7 + nl);
        assert(sp_arglist(t, 6 + nl) == Some(((8 + nl + al, d.args)))) by {
            assert(d.args =~= Seq::<Seq<char>>::empty());
        };
    } else {
        lemma_args_text_split(d.args, 1);
        let w0 = d.args[0];
        let l0 = w0.len() as int;
        let rest = args_text_from(d.args, 1);
        assert(args_text_upto(d.args, 1) == w0);
        assert(aa == w0 + rest);
        assert(t[7 + nl] == w0[0]);
        assert(is_ident_start(t[7 + nl]) && !is_space(t[7 + nl]));
        lemma_scan_spaces_at(t, 7 + nl, 7 + nl);
        assert(t.subrange(7 + nl, 7 + nl + l0) =~= w0);
        if d.args.len() == 1 {
            assert(rest.len() == 0);
            assert(t[7 + nl + l0] == ')');
        } else {
            assert(rest == ", "@ + d.args[1] + args_text_from(d.args, 2));
            assert(t[7 + nl + l0] == aa[l0]);
            assert(t[7 + nl + l0] == ',');
        }
        assert(!is_ident_char(t[7 + nl + l0]));
        lemma_symbol_at(t, 7 + nl, 7 + nl + l0);
        assert(!is_space(t[7 + nl + l0]));
        lemma_scan_spaces_at(t, 7 + nl + l0, 7 + nl + l0);
        assert(t.subrange(7 + nl + l0, 7 + nl + l0 + rest.len()) =~= rest);
        lemma_argtail_at(t, 7 + nl + l0, d.args, 1, seq![w0]);
        assert(seq![w0] + d.args.skip(1) =~= d.args);
    }
    // Spaces, the arrow, spaces, the return type up to the end.
    assert(t[8 + nl + al] == ' ');
    assert(t[9 + nl + al] == '-');
    assert(!is_space(t[9 + nl + al]));
    lemma_scan_spaces_at(t, 8 + nl + al, 9 + nl + al);
    assert(t.subrange(9 + nl + al, 11 + nl + al) =~= "->"@);
    assert(t[11 + nl + al] == ' ');
    assert(t[12 + nl + al] == d.ret[0]);
    assert(is_ident_start(t[12 + nl + al]) && !is_space(t[12 + nl + al]));
    lemma_scan_spaces_at(t, 11 + nl + al, 12 + nl + al);
    lemma_symbol_at(t, 12 + nl + al, rn);
    assert(sp_decl(t, 0) == Some(((rn, DeclModel { name: d.name, args: d.args, ret: d.ret }))));
    assert(DeclModel { name: d.name, args: d.args, ret: d.ret } =~= d);
}

proof fn lemma_decl_of_render(d: DeclModel)
    requires
        d.wf(),
    ensures
        sp_decl(spec_render(d), 0) == Some(((spec_render(d).len() as int, d))),
{
    let t = spec_render(d);
    assert(t.subrange(0, t.len() as int) =~= t);
    lemma_decl_at_render_prefix(t, d);
}

/// Law: parsing the canonical rendering of any well-formed declaration
/// round-trips to exactly that declaration, as the single declaration of the
/// file.
pub proof fn lemma_parse_render_roundtrip(d: DeclModel)
    requires
        d.wf(),
    ensures
        sp_file(spec_render(d)) == Some(seq![d]),
{
    lemma_decl_of_render(d);
    let t = spec_render(d);
    let n = t.len() as int;
    reveal_strlit("def ");
    assert(t[0] == 'd');
    assert(!is_blank(t[0]));
    lemma_scan_blank_at(t, 0, 0);
    lemma_scan_spaces_at(t, n, n);
    lemma_scan_blank_at(t, n, n);
    assert(sp_decls(t, 0) == Some(((n, seq![d]))));
}

/// Law: input left standing after a rendered declaration is an error unless
/// it is all blank — trailing text is never silently ignored. Stated for
/// trailing text whose first character neither extends the declaration's
/// final identifier (the whole input would then still match the grammar, as
/// a declaration with a longer return-type name) nor is blank (blank space
/// after the last declaration is tolerated by the file rule).
pub proof fn lemma_trailing_input_rejected(d: DeclModel, t: Seq<char>)
    requires
        d.wf(),
        t.len() > 0,
        !is_ident_char(t[0]),
        !is_blank(t[0]),
    ensures
        sp_file(spec_render(d) + t) is None,
{
    let s = spec_render(d) + t;
    let rn = spec_render(d).len() as int;
    assert(s.subrange(0, rn) =~= spec_render(d));
    assert(s[rn] == t[0]);
    lemma_decl_at_render_prefix(s, d);
    reveal_strlit("def ");
    assert(s[0] == 'd') by {
        let u1 = "def "@ + d.name;
        let u2 = u1 + ": ("@;
        let u3 = u2 + args_text(d.args);
        let u4 = u3 + ") -> "@;
        assert(spec_render(d) == u4 + d.ret);
        assert(u1[0] == 'd');
        assert(u2[0] == 'd');
        assert(u3[0] == 'd');
        assert(u4[0] == 'd');
        assert(spec_render(d)[0] == 'd');
        assert(s.subrange(0, rn)[0] == spec_render(d)[0]);
    };
    assert(!is_blank(s[0]));
    lemma_scan_blank_at(s, 0, 0);
    // No separator begins at the end of the declaration, so the single
    // declaration is all that is parsed, and the trailing text remains.
    assert(!is_space(s[rn]));
    lemma_scan_spaces_at(s, rn, rn);
    assert(s[rn] != '\n');
    lemma_scan_blank_at(s, rn, rn);
    assert(scan_blank(s, rn) != s.len());
    assert(sp_decls(s, 0) == Some(((rn, seq![d]))));
}

/// Law: with no parameters, every parameter-consuming generation context
/// yields its stable canonical "no parameters" form — empty text for the
/// native parameter list, the buffer-decoding preamble, the import-direction
/// reconstruction and call-site list, and the explicit empty-list expression
/// `vec![]` for the runtime-value construction list.
pub proof fn lemma_empty_parameter_list(d: DeclModel)
    requires
        d.args.len() == 0,
    ensures
        args_decl_text(d.args, d.args.len() as int) == Some(Seq::<char>::empty()),
        args_let_vec_text(d.args) == Some("vec![]"@),
        conv_text(d.args, d.args.len() as int) == Some(Seq::<char>::empty()),
        import_lets_text(d.args, d.args.len() as int) == Some(Seq::<char>::empty()),
        call_args_text(d.args, d.args.len() as int) == Some(Seq::<char>::empty()),
{
    reveal_strlit("vec![");
    reveal_strlit("]");
    reveal_strlit("vec![]");
    assert("vec!["@ + Seq::<char>::empty() + "]"@ =~= "vec![]"@);
}

/// Law: an unrecognized type name in any parameter position is rejected by
/// every generation context that consumes parameters, in both directions —
/// never silently accepted.
pub proof fn lemma_unsupported_param_rejected(d: DeclModel, i: int)
    requires
        0 <= i < d.args.len(),
        !supported_param(d.args[i]),
    ensures
        args_decl_text(d.args, d.args.len() as int) is None,
        args_let_vec_text(d.args) is None,
        conv_text(d.args, d.args.len() as int) is None,
        import_lets_text(d.args, d.args.len() as int) is None,
        imported_body_text(d) is None,
{
    lemma_gen_folds_none(d.args, i, d.args.len() as int);
}

/// Law: an unrecognized return type name is rejected by both export-direction
/// return contexts and by the import-direction wrapper.
pub proof fn lemma_unsupported_ret_rejected(d: DeclModel)
    requires
        !supported_ret(d.ret),
    ensures
        rettype_text(d.ret) is None,
        handle_retval_text(d.ret) is None,
        imported_body_text(d) is None,
{
}

} // verus!

