//! The marshalling code generator.
//!
//! Given one parsed declaration, each method of [`FuncDef`] below emits one
//! text fragment of the glue that moves values between the scripting runtime
//! and native code:
//!
//! * [`FuncDef::args_decl`] — the native parameter list, in declared order;
//!   a buffer-typed (`String`) parameter becomes a pointer/length pair tagged
//!   with the same positional index.
//! * [`FuncDef::args_let_vec`] — the expression list that wraps each native
//!   parameter into a runtime tagged value.
//! * [`FuncDef::str_args_converter`] — the preamble that reconstructs a
//!   validated text value from each pointer/length pair; non-buffer parameters
//!   contribute nothing.
//! * [`FuncDef::rettype_decl`] and [`FuncDef::handle_retval`] — the native
//!   return type and the adaptation of the computed return value. A `String`
//!   return is copied into an owned buffer with a terminating sentinel byte;
//!   the buffer is leaked so the returned pointer stays valid after the
//!   wrapper returns, and reclaiming it is the embedding system's concern. A
//!   `void` return produces no value.
//! * [`FuncDef::imoprted_body`] — the whole import-direction wrapper body:
//!   positional arguments read out of the runtime's generic argument list,
//!   converted to native form, the native call, and the wrapping of its result
//!   back into a tagged value.
//!
//! The recognized type names are `Integer`, `Float` and `String`, plus `void`
//! in return position. Any other name is rejected with
//! [`GenError::UnsupportedType`] — never silently accepted — since there is no
//! sensible default mapping. The spec functions beside each method state the
//! emitted text exactly; generation is pure and consults no shared state.

use vstd::prelude::*;
use crate::decl::{DeclModel, FuncDef};
use crate::text::{dec_rep, str_eq, usize_to_string};

verus! {

/// A fatal generation error: a type name outside the recognized set, with the
/// offending name and the declaration it appears in.
#[derive(Debug, Clone, PartialEq, Eq)]
pub enum GenError {
    UnsupportedType { decl_name: String, ty_name: String },
}

/// Type names the generator recognizes in parameter position.
pub open spec fn supported_param(t: Seq<char>) -> bool {
    t == "Integer"@ || t == "Float"@ || t == "String"@
}

/// Type names the generator recognizes in return position (export direction).
pub open spec fn supported_ret(t: Seq<char>) -> bool {
    t == "void"@ || supported_param(t)
}

/// The least index at or after `i` whose type name is unsupported, or the
/// length if every one from `i` on is supported.
pub open spec fn first_bad_param(args: Seq<Seq<char>>, i: int) -> int
    decreases args.len() - i,
{
    if i < 0 || i >= args.len() {
        args.len() as int
    } else if !supported_param(args[i]) {
        i
    } else {
        first_bad_param(args, i + 1)
    }
}

pub(crate) proof fn lemma_first_bad_param_at(args: Seq<Seq<char>>, k: int, i: int)
    requires
        0 <= k <= i < args.len(),
        forall|j: int| k <= j < i ==> supported_param(#[trigger] args[j]),
        !supported_param(args[i]),
    ensures
        first_bad_param(args, k) == i,
    decreases i - k,
{
    if k < i {
        lemma_first_bad_param_at(args, k + 1, i);
    }
}

/// The error names the first unsupported parameter type of the declaration,
/// so the failure is a function of the declaration alone.
pub open spec fn reports_unsupported_param(d: DeclModel, e: GenError) -> bool {
    e matches GenError::UnsupportedType { decl_name, ty_name } && decl_name@ == d.name
        && first_bad_param(d.args, 0) < d.args.len() && ty_name@ == d.args[first_bad_param(
        d.args,
        0,
    )]
}

/// The error names the declaration's return type.
pub open spec fn reports_ret(d: DeclModel, e: GenError) -> bool {
    e matches GenError::UnsupportedType { decl_name, ty_name } && decl_name@ == d.name
        && ty_name@ == d.ret
}

/// Native parameter declaration for one parameter (context: argument-list
/// declaration). Scalars take one slot; a buffer takes a pointer and a length
/// slot sharing the positional index.
pub open spec fn decl_frag(t: Seq<char>, i: nat) -> Option<Seq<char>> {
    if t == "Integer"@ {
        Some("a"@ + dec_rep(i) + ": i32"@)
    } else if t == "Float"@ {
        Some("a"@ + dec_rep(i) + ": f32"@)
    } else if t == "String"@ {
        Some("p"@ + dec_rep(i) + ": *const u8, l"@ + dec_rep(i) + ": usize"@)
    } else {
        None
    }
}

/// The first `n` native parameter declarations joined with `", "`.
pub open spec fn args_decl_text(args: Seq<Seq<char>>, n: int) -> Option<Seq<char>>
    decreases n,
{
    if n <= 0 {
        Some(Seq::empty())
    } else {
        match args_decl_text(args, n - 1) {
            None => None,
            Some(pre) => match decl_frag(args[n - 1], (n - 1) as nat) {
                None => None,
                Some(f) => Some(
                    if n == 1 {
                        f
                    } else {
                        pre + ", "@ + f
                    },
                ),
            },
        }
    }
}

proof fn lemma_args_decl_text_none(args: Seq<Seq<char>>, i: int, n: int)
    requires
        0 <= i < n,
        decl_frag(args[i], i as nat) is None,
    ensures
        args_decl_text(args, n) is None,
    decreases n,
{
    if i < n - 1 {
        lemma_args_decl_text_none(args, i, n - 1);
    }
}

/// Runtime tagged-value construction for one parameter (context: call-site
/// argument-list materialization).
pub open spec fn let_frag(t: Seq<char>, i: nat) -> Option<Seq<char>> {
    if t == "Integer"@ {
        Some("std::rc::Rc::new(RObject::RInteger(a"@ + dec_rep(i) + " as i64))"@)
    } else if t == "Float"@ {
        Some("std::rc::Rc::new(RObject::RFloat(a"@ + dec_rep(i) + " as f64))"@)
    } else if t == "String"@ {
        Some("std::rc::Rc::new(RObject::RString(a"@ + dec_rep(i) + ".to_owned()))"@)
    } else {
        None
    }
}

/// The first `n` tagged-value constructions joined with `", "`.
pub open spec fn let_vec_items(args: Seq<Seq<char>>, n: int) -> Option<Seq<char>>
    decreases n,
{
    if n <= 0 {
        Some(Seq::empty())
    } else {
        match let_vec_items(args, n - 1) {
            None => None,
            Some(pre) => match let_frag(args[n - 1], (n - 1) as nat) {
                None => None,
                Some(f) => Some(
                    if n == 1 {
                        f
                    } else {
                        pre + ", "@ + f
                    },
                ),
            },
        }
    }
}

proof fn lemma_let_vec_items_none(args: Seq<Seq<char>>, i: int, n: int)
    requires
        0 <= i < n,
        let_frag(args[i], i as nat) is None,
    ensures
        let_vec_items(args, n) is None,
    decreases n,
{
    if i < n - 1 {
        lemma_let_vec_items_none(args, i, n - 1);
    }
}

/// The whole runtime-value construction list, as one `vec![...]` expression.
pub open spec fn args_let_vec_text(args: Seq<Seq<char>>) -> Option<Seq<char>> {
    match let_vec_items(args, args.len() as int) {
        None => None,
        Some(items) => Some("vec!["@ + items + "]"@),
    }
}

/// Buffer-decoding preamble for one parameter (context: reconstruction from
/// raw pointer/length pairs). Only buffer-typed parameters contribute text;
/// decoding faults on invalid bytes instead of truncating.
pub open spec fn conv_frag(t: Seq<char>, i: nat) -> Option<Seq<char>> {
    if t == "String"@ {
        Some(
            "\nlet a"@ + dec_rep(i) + " = unsafe {\n    let s = std::slice::from_raw_parts(p"@
                + dec_rep(i) + ", l"@ + dec_rep(i)
                + " as usize);\n    std::str::from_utf8(s).expect(\"invalid utf8\")\n};\n"@,
        )
    } else if t == "Integer"@ || t == "Float"@ {
        Some(Seq::empty())
    } else {
        None
    }
}

/// The concatenated buffer-decoding preambles of the first `n` parameters.
pub open spec fn conv_text(args: Seq<Seq<char>>, n: int) -> Option<Seq<char>>
    decreases n,
{
    if n <= 0 {
        Some(Seq::empty())
    } else {
        match conv_text(args, n - 1) {
            None => None,
            Some(pre) => match conv_frag(args[n - 1], (n - 1) as nat) {
                None => None,
                Some(f) => Some(pre + f),
            },
        }
    }
}

proof fn lemma_conv_text_none(args: Seq<Seq<char>>, i: int, n: int)
    requires
        0 <= i < n,
        conv_frag(args[i], i as nat) is None,
    ensures
        conv_text(args, n) is None,
    decreases n,
{
    if i < n - 1 {
        lemma_conv_text_none(args, i, n - 1);
    }
}

/// The native return-type annotation (export direction).
pub open spec fn rettype_text(t: Seq<char>) -> Option<Seq<char>> {
    if t == "void"@ {
        Some("-> ()"@)
    } else if t == "Integer"@ {
        Some("-> i32"@)
    } else if t == "Float"@ {
        Some("-> f32"@)
    } else if t == "String"@ {
        Some("-> *const u8"@)
    } else {
        None
    }
}

/// The return-value adaptation (export direction). A buffer return is copied
/// into an owned buffer, a terminating sentinel byte is appended, and the
/// buffer is leaked so the returned pointer stays valid after the wrapper
/// returns (reclaiming it is the embedding system's responsibility); scalars
/// convert directly out of the tagged runtime value, and `void` produces no
/// value on the scripting side.
pub open spec fn handle_retval_text(t: Seq<char>) -> Option<Seq<char>> {
    if t == "String"@ {
        Some(
            "let mut retval: String = retval.as_ref().try_into().unwrap();\nretval.push('\0');\nretval.leak().as_ptr()\n"@,
        )
    } else if t == "void"@ {
        Some("()"@)
    } else if t == "Integer"@ || t == "Float"@ {
        Some("retval.as_ref().try_into().unwrap()"@)
    } else {
        None
    }
}

/// Import direction: the statements that read positional argument `i` out of
/// the runtime's generic argument list and rebuild its native form. A buffer
/// argument is decoded once and its pointer and length are taken from the
/// decoded value.
pub open spec fn import_let_frag(t: Seq<char>, i: nat) -> Option<Seq<char>> {
    if t == "String"@ {
        Some(
            "let a"@ + dec_rep(i) + ": String = args["@ + dec_rep(i)
                + "].clone().as_ref().try_into().unwrap();\nlet p"@ + dec_rep(i) + " = a"@
                + dec_rep(i) + ".as_str().as_ptr();\nlet l"@ + dec_rep(i) + " = a"@ + dec_rep(i)
                + ".as_str().len();\n"@,
        )
    } else if t == "Integer"@ || t == "Float"@ {
        Some("let a"@ + dec_rep(i) + " = args["@ + dec_rep(i) + "].clone().as_ref().try_into().unwrap();\n"@)
    } else {
        None
    }
}

/// The concatenated import-direction argument reconstructions of the first
/// `n` parameters.
pub open spec fn import_lets_text(args: Seq<Seq<char>>, n: int) -> Option<Seq<char>>
    decreases n,
{
    if n <= 0 {
        Some(Seq::empty())
    } else {
        match import_lets_text(args, n - 1) {
            None => None,
            Some(pre) => match import_let_frag(args[n - 1], (n - 1) as nat) {
                None => None,
                Some(f) => Some(pre + f),
            },
        }
    }
}

proof fn lemma_import_lets_text_none(args: Seq<Seq<char>>, i: int, n: int)
    requires
        0 <= i < n,
        import_let_frag(args[i], i as nat) is None,
    ensures
        import_lets_text(args, n) is None,
    decreases n,
{
    if i < n - 1 {
        lemma_import_lets_text_none(args, i, n - 1);
    }
}

/// An unsupported parameter type makes every parameter-consuming fold reject.
pub(crate) proof fn lemma_gen_folds_none(args: Seq<Seq<char>>, i: int, n: int)
    requires
        0 <= i < n,
        !supported_param(args[i]),
    ensures
        args_decl_text(args, n) is None,
        let_vec_items(args, n) is None,
        conv_text(args, n) is None,
        import_lets_text(args, n) is None,
{
    lemma_args_decl_text_none(args, i, n);
    lemma_let_vec_items_none(args, i, n);
    lemma_conv_text_none(args, i, n);
    lemma_import_lets_text_none(args, i, n);
}

/// Import direction: the call-site argument for parameter `i`; a buffer
/// parameter passes its pointer/length pair.
pub open spec fn call_frag(t: Seq<char>, i: nat) -> Option<Seq<char>> {
    if t == "String"@ {
        Some("p"@ + dec_rep(i) + ", l"@ + dec_rep(i))
    } else if t == "Integer"@ || t == "Float"@ {
        Some("a"@ + dec_rep(i))
    } else {
        None
    }
}

/// The first `n` call-site arguments joined with `","`.
pub open spec fn call_args_text(args: Seq<Seq<char>>, n: int) -> Option<Seq<char>>
    decreases n,
{
    if n <= 0 {
        Some(Seq::empty())
    } else {
        match call_args_text(args, n - 1) {
            None => None,
            Some(pre) => match call_frag(args[n - 1], (n - 1) as nat) {
                None => None,
                Some(f) => Some(
                    if n == 1 {
                        f
                    } else {
                        pre + ","@ + f
                    },
                ),
            },
        }
    }
}

/// Import direction: how the native return value is wrapped back into a
/// runtime tagged value — the inverse of the export-direction adaptation for
/// each supported type. A buffer return arrives as a pointer to a
/// sentinel-terminated byte buffer; its bytes up to the sentinel are
/// validated as text (faulting on invalid encoding, never truncating) and
/// copied into an owned tagged value.
pub open spec fn import_ret_frag(t: Seq<char>) -> Option<Seq<char>> {
    if t == "Integer"@ {
        Some("RObject::RInteger(r0 as i64)"@)
    } else if t == "Float"@ {
        Some("RObject::RFloat(r0 as f64)"@)
    } else if t == "String"@ {
        Some(
            "RObject::RString(unsafe {\n    let mut rlen = 0usize;\n    while *r0.add(rlen) != 0u8 {\n        rlen += 1;\n    }\n    let bytes = std::slice::from_raw_parts(r0, rlen);\n    std::str::from_utf8(bytes).expect(\"invalid utf8\").to_owned()\n})"@,
        )
    } else if t == "void"@ {
        Some("RObject::Nil"@)
    } else {
        None
    }
}

/// The whole import-direction wrapper body.
pub open spec fn imported_body_text(d: DeclModel) -> Option<Seq<char>> {
    match import_lets_text(d.args, d.args.len() as int) {
        None => None,
        Some(lets) => match call_args_text(d.args, d.args.len() as int) {
            None => None,
            Some(call) => match import_ret_frag(d.ret) {
                None => None,
                Some(rf) => Some(
                    lets + "let r0 = unsafe { "@ + d.name + "("@ + call + ") };\n"@ + "Rc::new("@
                        + rf + ")\n"@,
                ),
            },
        },
    }
}

impl FuncDef {
    /// Emits the native parameter-list declaration for this declaration's
    /// parameters, comma-separated in declared order; empty parameters yield
    /// empty text.
    pub fn args_decl(&self) -> (r: Result<String, GenError>)
        ensures
            match r {
                Ok(s) => args_decl_text(self@.args, self@.args.len() as int) == Some(s@),
                Err(e) => args_decl_text(self@.args, self@.args.len() as int) is None
                    && reports_unsupported_param(self@, e),
            },
            (r is Ok) <==> (forall|i: int|
                0 <= i < self@.args.len() ==> supported_param(#[trigger] self@.args[i])),
    {
        let n = self.argstype.len();
        let mut buf = String::new();
        let mut i: usize = 0;
        while i < n
            invariant
                i <= n,
                n == self.argstype.len(),
                args_decl_text(self@.args, i as int) == Some(buf@),
                forall|j: int| 0 <= j < i ==> supported_param(#[trigger] self@.args[j]),
            decreases n - i,
        {
            let t = &self.argstype[i];
            proof {
                assert(self@.args[i as int] == self.argstype[i as int]@);
            }
            let ghost pre = buf@;
            if i > 0 {
                buf.append(", ");
            }
            if str_eq(t.as_str(), "Integer") {
                buf.append("a");
                let num = usize_to_string(i);
                buf.append(num.as_str());
                buf.append(": i32");
                proof {
                    assert(buf@ =~= if i == 0 {
                        "a"@ + dec_rep(i as nat) + ": i32"@
                    } else {
                        pre + ", "@ + ("a"@ + dec_rep(i as nat) + ": i32"@)
                    });
                }
            } else if str_eq(t.as_str(), "Float") {
                buf.append("a");
                let num = usize_to_string(i);
                buf.append(num.as_str());
                buf.append(": f32");
                proof {
                    assert(buf@ =~= if i == 0 {
                        "a"@ + dec_rep(i as nat) + ": f32"@
                    } else {
                        pre + ", "@ + ("a"@ + dec_rep(i as nat) + ": f32"@)
                    });
                }
            } else if str_eq(t.as_str(), "String") {
                buf.append("p");
                let num = usize_to_string(i);
                buf.append(num.as_str());
                buf.append(": *const u8, l");
                buf.append(num.as_str());
                buf.append(": usize");
                proof {
                    assert(buf@ =~= if i == 0 {
                        "p"@ + dec_rep(i as nat) + ": *const u8, l"@ + dec_rep(i as nat)
                            + ": usize"@
                    } else {
                        pre + ", "@ + ("p"@ + dec_rep(i as nat) + ": *const u8, l"@ + dec_rep(
                            i as nat,
                        ) + ": usize"@)
                    });
                }
            } else {
                proof {
                    lemma_args_decl_text_none(self@.args, i as int, self@.args.len() as int);
                    lemma_first_bad_param_at(self@.args, 0, i as int);
                }
                return Err(
                    GenError::UnsupportedType {
                        decl_name: self.name.clone(),
                        ty_name: t.clone(),
                    },
                );
            }
            i += 1;
        }
        Ok(buf)
    }

    /// Emits the `vec![...]` expression that wraps each native parameter into
    /// a runtime tagged value; an empty parameter list yields the explicit
    /// empty-list expression `vec![]`.
    pub fn args_let_vec(&self) -> (r: Result<String, GenError>)
        ensures
            match r {
                Ok(s) => args_let_vec_text(self@.args) == Some(s@),
                Err(e) => args_let_vec_text(self@.args) is None && reports_unsupported_param(
                    self@,
                    e,
                ),
            },
            (r is Ok) <==> (forall|i: int|
                0 <= i < self@.args.len() ==> supported_param(#[trigger] self@.args[i])),
    {
        let n = self.argstype.len();
        let mut items = String::new();
        let mut i: usize = 0;
        while i < n
            invariant
                i <= n,
                n == self.argstype.len(),
                let_vec_items(self@.args, i as int) == Some(items@),
                forall|j: int| 0 <= j < i ==> supported_param(#[trigger] self@.args[j]),
            decreases n - i,
        {
            let t = &self.argstype[i];
            proof {
                assert(self@.args[i as int] == self.argstype[i as int]@);
            }
            let ghost pre = items@;
            if i > 0 {
                items.append(", ");
            }
            if str_eq(t.as_str(), "Integer") {
                items.append("std::rc::Rc::new(RObject::RInteger(a");
                let num = usize_to_string(i);
                items.append(num.as_str());
                items.append(" as i64))");
                proof {
                    assert(items@ =~= if i == 0 {
                        "std::rc::Rc::new(RObject::RInteger(a"@ + dec_rep(i as nat) + " as i64))"@
                    } else {
                        pre + ", "@ + ("std::rc::Rc::new(RObject::RInteger(a"@ + dec_rep(i as nat)
                            + " as i64))"@)
                    });
                }
            } else if str_eq(t.as_str(), "Float") {
                items.append("std::rc::Rc::new(RObject::RFloat(a");
                let num = usize_to_string(i);
                items.append(num.as_str());
                items.append(" as f64))");
                proof {
                    assert(items@ =~= if i == 0 {
                        "std::rc::Rc::new(RObject::RFloat(a"@ + dec_rep(i as nat) + " as f64))"@
                    } else {
                        pre + ", "@ + ("std::rc::Rc::new(RObject::RFloat(a"@ + dec_rep(i as nat)
                            + " as f64))"@)
                    });
                }
            } else if str_eq(t.as_str(), "String") {
                items.append("std::rc::Rc::new(RObject::RString(a");
                let num = usize_to_string(i);
                items.append(num.as_str());
                items.append(".to_owned()))");
                proof {
                    assert(items@ =~= if i == 0 {
                        "std::rc::Rc::new(RObject::RString(a"@ + dec_rep(i as nat)
                            + ".to_owned()))"@
                    } else {
                        pre + ", "@ + ("std::rc::Rc::new(RObject::RString(a"@ + dec_rep(i as nat)
                            + ".to_owned()))"@)
                    });
                }
            } else {
                proof {
                    lemma_let_vec_items_none(self@.args, i as int, self@.args.len() as int);
                    lemma_first_bad_param_at(self@.args, 0, i as int);
                }
                return Err(
                    GenError::UnsupportedType {
                        decl_name: self.name.clone(),
                        ty_name: t.clone(),
                    },
                );
            }
            i += 1;
        }
        let mut out = String::from_str("vec![");
        out.append(items.as_str());
        out.append("]");
        proof {
            assert(out@ =~= "vec!["@ + items@ + "]"@);
        }
        Ok(out)
    }

    /// Emits the preamble that rebuilds each buffer-typed parameter from its
    /// pointer/length pair; parameters of scalar type produce no text.
    pub fn str_args_converter(&self) -> (r: Result<String, GenError>)
        ensures
            match r {
                Ok(s) => conv_text(self@.args, self@.args.len() as int) == Some(s@),
                Err(e) => conv_text(self@.args, self@.args.len() as int) is None
                    && reports_unsupported_param(self@, e),
            },
            (r is Ok) <==> (forall|i: int|
                0 <= i < self@.args.len() ==> supported_param(#[trigger] self@.args[i])),
    {
        let n = self.argstype.len();
        let mut buf = String::new();
        let mut i: usize = 0;
        while i < n
            invariant
                i <= n,
                n == self.argstype.len(),
                conv_text(self@.args, i as int) == Some(buf@),
                forall|j: int| 0 <= j < i ==> supported_param(#[trigger] self@.args[j]),
            decreases n - i,
        {
            let t = &self.argstype[i];
            proof {
                assert(self@.args[i as int] == self.argstype[i as int]@);
            }
            let ghost pre = buf@;
            if str_eq(t.as_str(), "String") {
                buf.append("\nlet a");
                let num = usize_to_string(i);
                buf.append(num.as_str());
                buf.append(" = unsafe {\n    let s = std::slice::from_raw_parts(p");
                buf.append(num.as_str());
                buf.append(", l");
                buf.append(num.as_str());
                buf.append(
                    " as usize);\n    std::str::from_utf8(s).expect(\"invalid utf8\")\n};\n",
                );
                proof {
                    assert(buf@ =~= pre + ("\nlet a"@ + dec_rep(i as nat)
                        + " = unsafe {\n    let s = std::slice::from_raw_parts(p"@ + dec_rep(
                        i as nat,
                    ) + ", l"@ + dec_rep(i as nat)
                        + " as usize);\n    std::str::from_utf8(s).expect(\"invalid utf8\")\n};\n"@));
                }
            } else if str_eq(t.as_str(), "Integer") || str_eq(t.as_str(), "Float") {
                proof {
                    assert(buf@ =~= pre + Seq::<char>::empty());
                }
            } else {
                proof {
                    lemma_conv_text_none(self@.args, i as int, self@.args.len() as int);
                    lemma_first_bad_param_at(self@.args, 0, i as int);
                }
                return Err(
                    GenError::UnsupportedType {
                        decl_name: self.name.clone(),
                        ty_name: t.clone(),
                    },
                );
            }
            i += 1;
        }
        Ok(buf)
    }

    /// Emits the native return-type annotation for the export-direction
    /// wrapper.
    pub fn rettype_decl(&self) -> (r: Result<String, GenError>)
        ensures
            match r {
                Ok(s) => rettype_text(self@.ret) == Some(s@),
                Err(e) => rettype_text(self@.ret) is None && reports_ret(self@, e),
            },
            (r is Ok) <==> supported_ret(self@.ret),
    {
        let t = self.rettype.as_str();
        if str_eq(t, "void") {
            Ok(String::from_str("-> ()"))
        } else if str_eq(t, "Integer") {
            Ok(String::from_str("-> i32"))
        } else if str_eq(t, "Float") {
            Ok(String::from_str("-> f32"))
        } else if str_eq(t, "String") {
            Ok(String::from_str("-> *const u8"))
        } else {
            Err(
                GenError::UnsupportedType {
                    decl_name: self.name.clone(),
                    ty_name: self.rettype.clone(),
                },
            )
        }
    }

    /// Emits the export-direction return adaptation. The buffer case appends
    /// the terminating sentinel to an owned value and leaks it, so the
    /// returned pointer stays valid after the wrapper returns; the `void`
    /// case hands no value to the scripting side.
    pub fn handle_retval(&self) -> (r: Result<String, GenError>)
        ensures
            match r {
                Ok(s) => handle_retval_text(self@.ret) == Some(s@),
                Err(e) => handle_retval_text(self@.ret) is None && reports_ret(self@, e),
            },
            (r is Ok) <==> supported_ret(self@.ret),
    {
        let t = self.rettype.as_str();
        if str_eq(t, "String") {
            Ok(
                String::from_str(
                    "let mut retval: String = retval.as_ref().try_into().unwrap();\nretval.push('\0');\nretval.leak().as_ptr()\n",
                ),
            )
        } else if str_eq(t, "void") {
            Ok(String::from_str("()"))
        } else if str_eq(t, "Integer") || str_eq(t, "Float") {
            Ok(String::from_str("retval.as_ref().try_into().unwrap()"))
        } else {
            Err(
                GenError::UnsupportedType {
                    decl_name: self.name.clone(),
                    ty_name: self.rettype.clone(),
                },
            )
        }
    }

    /// Emits the whole import-direction wrapper body: argument reconstruction
    /// from the runtime's generic argument list, the native call (pointer and
    /// length synthesized for buffer arguments), and the wrapping of the
    /// return value back into a tagged value, the inverse of the
    /// export-direction adaptation for each supported type.
    pub fn imoprted_body(&self) -> (r: Result<String, GenError>)
        ensures
            match r {
                Ok(s) => imported_body_text(self@) == Some(s@),
                Err(e) => imported_body_text(self@) is None && (reports_unsupported_param(self@, e)
                    || (reports_ret(self@, e) && !supported_ret(self@.ret))),
            },
            (r is Ok) <==> ((forall|i: int|
                0 <= i < self@.args.len() ==> supported_param(#[trigger] self@.args[i]))
                && supported_ret(self@.ret)),
    {
        let n = self.argstype.len();
        let mut lets = String::new();
        let mut call = String::new();
        let mut i: usize = 0;
        while i < n
            invariant
                i <= n,
                n == self.argstype.len(),
                import_lets_text(self@.args, i as int) == Some(lets@),
                call_args_text(self@.args, i as int) == Some(call@),
                forall|j: int| 0 <= j < i ==> supported_param(#[trigger] self@.args[j]),
            decreases n - i,
        {
            let t = &self.argstype[i];
            proof {
                assert(self@.args[i as int] == self.argstype[i as int]@);
            }
            let ghost lets_pre = lets@;
            let ghost call_pre = call@;
            if i > 0 {
                call.append(",");
            }
            if str_eq(t.as_str(), "String") {
                let num = usize_to_string(i);
                lets.append("let a");
                lets.append(num.as_str());
                lets.append(": String = args[");
                lets.append(num.as_str());
                lets.append("].clone().as_ref().try_into().unwrap();\nlet p");
                lets.append(num.as_str());
                lets.append(" = a");
                lets.append(num.as_str());
                lets.append(".as_str().as_ptr();\nlet l");
                lets.append(num.as_str());
                lets.append(" = a");
                lets.append(num.as_str());
                lets.append(".as_str().len();\n");
                call.append("p");
                call.append(num.as_str());
                call.append(", l");
                call.append(num.as_str());
                proof {
                    assert(lets@ =~= lets_pre + ("let a"@ + dec_rep(i as nat) + ": String = args["@
                        + dec_rep(i as nat) + "].clone().as_ref().try_into().unwrap();\nlet p"@
                        + dec_rep(i as nat) + " = a"@ + dec_rep(i as nat)
                        + ".as_str().as_ptr();\nlet l"@ + dec_rep(i as nat) + " = a"@ + dec_rep(
                        i as nat,
                    ) + ".as_str().len();\n"@));
                    assert(call@ =~= if i == 0 {
                        "p"@ + dec_rep(i as nat) + ", l"@ + dec_rep(i as nat)
                    } else {
                        call_pre + ","@ + ("p"@ + dec_rep(i as nat) + ", l"@ + dec_rep(i as nat))
                    });
                }
            } else if str_eq(t.as_str(), "Integer") || str_eq(t.as_str(), "Float") {
                let num = usize_to_string(i);
                lets.append("let a");
                lets.append(num.as_str());
                lets.append(" = args[");
                lets.append(num.as_str());
                lets.append("].clone().as_ref().try_into().unwrap();\n");
                call.append("a");
                call.append(num.as_str());
                proof {
                    assert(lets@ =~= lets_pre + ("let a"@ + dec_rep(i as nat) + " = args["@
                        + dec_rep(i as nat) + "].clone().as_ref().try_into().unwrap();\n"@));
                    assert(call@ =~= if i == 0 {
                        "a"@ + dec_rep(i as nat)
                    } else {
                        call_pre + ","@ + ("a"@ + dec_rep(i as nat))
                    });
                }
            } else {
                proof {
                    lemma_import_lets_text_none(self@.args, i as int, self@.args.len() as int);
                    lemma_first_bad_param_at(self@.args, 0, i as int);
                }
                return Err(
                    GenError::UnsupportedType {
                        decl_name: self.name.clone(),
                        ty_name: t.clone(),
                    },
                );
            }
            i += 1;
        }
        let rt = self.rettype.as_str();
        let ret_frag: &str = if str_eq(rt, "Integer") {
            "RObject::RInteger(r0 as i64)"
        } else if str_eq(rt, "Float") {
            "RObject::RFloat(r0 as f64)"
        } else if str_eq(rt, "String") {
            "RObject::RString(unsafe {\n    let mut rlen = 0usize;\n    while *r0.add(rlen) != 0u8 {\n        rlen += 1;\n    }\n    let bytes = std::slice::from_raw_parts(r0, rlen);\n    std::str::from_utf8(bytes).expect(\"invalid utf8\").to_owned()\n})"
        } else if str_eq(rt, "void") {
            "RObject::Nil"
        } else {
            return Err(
                GenError::UnsupportedType {
                    decl_name: self.name.clone(),
                    ty_name: self.rettype.clone(),
                },
            );
        };
        let mut out = lets;
        out.append("let r0 = unsafe { ");
        out.append(self.name.as_str());
        out.append("(");
        out.append(call.as_str());
        out.append(") };\n");
        out.append("Rc::new(");
        out.append(ret_frag);
        out.append(")\n");
        proof {
            assert(out@ =~= import_lets_text(self@.args, self@.args.len() as int).unwrap()
                + "let r0 = unsafe { "@ + self@.name + "("@ + call_args_text(
                self@.args,
                self@.args.len() as int,
            ).unwrap() + ") };\n"@ + "Rc::new("@ + import_ret_frag(self@.ret).unwrap() + ")\n"@);
        }
        Ok(out)
    }
}

} // verus!
