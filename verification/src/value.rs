//! A model of the runtime's tagged value, as far as the generated marshalling
//! conversions read and build it: construction from a native scalar or text
//! value, and the fallible conversion back. The export-direction and the
//! import-direction conversions are proved inverse to each other for the
//! integer and the text case; the runtime's float variant stays outside this
//! model.

use vstd::prelude::*;

verus! {

/// The model of a tagged runtime value.
pub ghost enum RValueModel {
    Int(int),
    Text(Seq<char>),
    Nil,
}

/// The tagged runtime value as the marshalling conversions see it: an integer
/// variant, an owned-text variant, and nil.
#[derive(Debug, Clone, PartialEq, Eq)]
pub enum RObject {
    RInteger(i64),
    RString(String),
    Nil,
}

impl View for RObject {
    type V = RValueModel;

    open spec fn view(&self) -> RValueModel {
        match self {
            RObject::RInteger(x) => RValueModel::Int(*x as int),
            RObject::RString(s) => RValueModel::Text(s@),
            RObject::Nil => RValueModel::Nil,
        }
    }
}

/// Export direction: the tagged value built from a native 32-bit integer
/// (widened, as the generated `RObject::RInteger(a as i64)` does).
pub open spec fn export_int_model(v: int) -> RValueModel {
    RValueModel::Int(v)
}

/// Import direction: the native 32-bit integer read back out of a tagged
/// value; fails on any other variant and on values outside the native range.
pub open spec fn import_int_model(m: RValueModel) -> Option<int> {
    match m {
        RValueModel::Int(x) => if -2147483648 <= x <= 2147483647 {
            Some(x)
        } else {
            None
        },
        _ => None,
    }
}

/// Export direction: the tagged value owning a copy of native text.
pub open spec fn export_text_model(s: Seq<char>) -> RValueModel {
    RValueModel::Text(s)
}

/// Import direction: the text content read back out of a tagged value.
pub open spec fn import_text_model(m: RValueModel) -> Option<Seq<char>> {
    match m {
        RValueModel::Text(s) => Some(s),
        _ => None,
    }
}

impl RObject {
    /// Wraps a native 32-bit integer into a tagged value.
    pub fn from_i32(v: i32) -> (r: RObject)
        ensures
            r@ == export_int_model(v as int),
    {
        RObject::RInteger(v as i64)
    }

    /// Converts a tagged value back to a native 32-bit integer.
    pub fn to_i32(&self) -> (r: Option<i32>)
        ensures
            match import_int_model(self@) {
                Some(x) => r matches Some(y) && y as int == x,
                None => r is None,
            },
    {
        match self {
            RObject::RInteger(x) => {
                if *x >= -2147483648i64 && *x <= 2147483647i64 {
                    Some(*x as i32)
                } else {
                    None
                }
            },
            _ => None,
        }
    }

    /// Wraps native text into a tagged value that owns a copy of it.
    pub fn from_text(s: &str) -> (r: RObject)
        ensures
            r@ == export_text_model(s@),
    {
        RObject::RString(String::from_str(s))
    }

    /// Converts a tagged value back to owned native text.
    pub fn to_text(&self) -> (r: Option<String>)
        ensures
            match import_text_model(self@) {
                Some(s) => r matches Some(t) && t@ == s,
                None => r is None,
            },
    {
        match self {
            RObject::RString(s) => Some(s.clone()),
            _ => None,
        }
    }
}

/// Law: for every native integer value, wrapping it into a tagged runtime
/// value and converting back yields the same value.
pub proof fn lemma_int_conversions_inverse(v: int)
    requires
        -2147483648 <= v <= 2147483647,
    ensures
        import_int_model(export_int_model(v)) == Some(v),
{
}

/// Law: for every text value, wrapping it into a tagged runtime value and
/// reading it back yields identical content.
pub proof fn lemma_text_conversions_inverse(s: Seq<char>)
    ensures
        import_text_model(export_text_model(s)) == Some(s),
{
}

} // verus!
