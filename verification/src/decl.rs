//! The declaration record produced by the parser for one signature line, its
//! mathematical model, and the canonical textual rendering of a declaration.

use vstd::prelude::*;
use crate::text::valid_ident;

verus! {

/// The mathematical model of one declaration: its name, its parameter type
/// names in positional order, and its return type name.
#[verifier::ext_equal]
pub ghost struct DeclModel {
    pub name: Seq<char>,
    pub args: Seq<Seq<char>>,
    pub ret: Seq<char>,
}

impl DeclModel {
    /// Every type name and the declaration name are well-formed identifiers.
    pub open spec fn wf(self) -> bool {
        &&& valid_ident(self.name)
        &&& valid_ident(self.ret)
        &&& forall|i: int| 0 <= i < self.args.len() ==> valid_ident(#[trigger] self.args[i])
    }
}

/// One parsed signature declaration: `def <name>: (<argstype>, ...) -> <rettype>`.
///
/// Created once per parsed line, held immutably, and read by the generator.
#[derive(Debug, Clone, PartialEq, Eq)]
pub struct FuncDef {
    pub name: String,
    pub argstype: Vec<String>,
    pub rettype: String,
}

impl View for FuncDef {
    type V = DeclModel;

    open spec fn view(&self) -> DeclModel {
        DeclModel { name: self.name@, args: self.argstype.deep_view(), ret: self.rettype@ }
    }
}

impl DeepView for FuncDef {
    type V = DeclModel;

    open spec fn deep_view(&self) -> DeclModel {
        self.view()
    }
}

/// The type-name list joined with `", "`, over the first `n` entries.
pub open spec fn args_text_upto(args: Seq<Seq<char>>, n: int) -> Seq<char>
    decreases n,
{
    if n <= 0 {
        Seq::empty()
    } else if n == 1 {
        args[0]
    } else {
        args_text_upto(args, n - 1) + ", "@ + args[n - 1]
    }
}

/// The suffix of the joined type-name list from entry `k` on: each remaining
/// entry preceded by `", "`.
pub open spec fn args_text_from(args: Seq<Seq<char>>, k: int) -> Seq<char>
    decreases args.len() - k,
{
    if k < 0 || k >= args.len() {
        Seq::empty()
    } else {
        ", "@ + args[k] + args_text_from(args, k + 1)
    }
}

/// The full joined type-name list.
pub open spec fn args_text(args: Seq<Seq<char>>) -> Seq<char> {
    args_text_upto(args, args.len() as int)
}

/// The canonical textual form of a declaration, the inverse image the parser
/// is proved to accept.
pub open spec fn spec_render(d: DeclModel) -> Seq<char> {
    "def "@ + d.name + ": ("@ + args_text(d.args) + ") -> "@ + d.ret
}

/// A prefix of the joined list followed by the matching suffix is the whole
/// joined list.
pub proof fn lemma_args_text_split(args: Seq<Seq<char>>, k: int)
    requires
        1 <= k <= args.len(),
    ensures
        args_text(args) == args_text_upto(args, k) + args_text_from(args, k),
    decreases args.len() - k,
{
    if k == args.len() {
        assert(args_text_from(args, k) =~= Seq::<char>::empty());
        assert(args_text(args) =~= args_text_upto(args, k) + args_text_from(args, k));
    } else {
        lemma_args_text_split(args, k + 1);
        assert(args_text_upto(args, k + 1) == args_text_upto(args, k) + ", "@ + args[k]);
        assert(args_text_from(args, k) == ", "@ + args[k] + args_text_from(args, k + 1));
        assert(args_text_upto(args, k) + (", "@ + args[k] + args_text_from(args, k + 1)) =~= (
        args_text_upto(args, k) + ", "@ + args[k]) + args_text_from(args, k + 1));
    }
}

impl FuncDef {
    /// Renders the declaration in the canonical textual form.
    pub fn render(&self) -> (r: String)
        ensures
            r@ == spec_render(self@),
    {
        let mut s = String::from_str("def ");
        s.append(self.name.as_str());
        s.append(": (");
        let ghost head = "def "@ + self@.name + ": ("@;
        let n = self.argstype.len();
        let mut i: usize = 0;
        while i < n
            invariant
                i <= n,
                n == self.argstype.len(),
                s@ == head + args_text_upto(self@.args, i as int),
            decreases n - i,
        {
            if i > 0 {
                s.append(", ");
            }
            s.append(self.argstype[i].as_str());
            proof {
                assert(self@.args[i as int] == self.argstype[i as int]@);
                if i == 0 {
                    assert(args_text_upto(self@.args, 1) == self@.args[0]);
                    assert(s@ =~= head + args_text_upto(self@.args, 1));
                } else {
                    assert(args_text_upto(self@.args, i + 1) == args_text_upto(
                        self@.args,
                        i as int,
                    ) + ", "@ + self@.args[i as int]);
                    assert(s@ =~= head + args_text_upto(self@.args, i + 1));
                }
            }
            i += 1;
        }
        s.append(") -> ");
        s.append(self.rettype.as_str());
        proof {
            assert(args_text_upto(self@.args, n as int) == args_text(self@.args));
            assert(s@ =~= spec_render(self@));
        }
        s
    }
}

} // verus!
