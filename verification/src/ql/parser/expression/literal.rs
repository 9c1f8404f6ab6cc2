use vstd::prelude::*;

verus! {

/// A literal value in a query.
///
/// Fractional numbers keep the decimal text they were written with.
#[derive(Debug)]
pub enum Literal {
    Int(i32),
    BigInt(i64),
    Float(String),
    BigFloat(String),
    Bool(bool),
    String(String),
    Null,
}

/// The mathematical form of a [`Literal`].
pub enum LiteralV {
    Int(i32),
    BigInt(i64),
    Float(Seq<char>),
    BigFloat(Seq<char>),
    Bool(bool),
    String(Seq<char>),
    Null,
}

impl DeepView for Literal {
    type V = LiteralV;

    open spec fn deep_view(&self) -> LiteralV {
        match self {
            Literal::Int(n) => LiteralV::Int(*n),
            Literal::BigInt(n) => LiteralV::BigInt(*n),
            Literal::Float(s) => LiteralV::Float(s@),
            Literal::BigFloat(s) => LiteralV::BigFloat(s@),
            Literal::Bool(b) => LiteralV::Bool(*b),
            Literal::String(s) => LiteralV::String(s@),
            Literal::Null => LiteralV::Null,
        }
    }
}

impl From<bool> for Literal {
    fn from(b: bool) -> (r: Literal) {
        Literal::Bool(b)
    }
}

impl vstd::std_specs::convert::FromSpecImpl<bool> for Literal {
    open spec fn obeys_from_spec() -> bool {
        true
    }

    open spec fn from_spec(b: bool) -> Literal {
        Literal::Bool(b)
    }
}

impl From<i32> for Literal {
    fn from(i: i32) -> (r: Literal) {
        Literal::Int(i)
    }
}

impl vstd::std_specs::convert::FromSpecImpl<i32> for Literal {
    open spec fn obeys_from_spec() -> bool {
        true
    }

    open spec fn from_spec(i: i32) -> Literal {
        Literal::Int(i)
    }
}

impl From<i64> for Literal {
    fn from(i: i64) -> (r: Literal) {
        Literal::BigInt(i)
    }
}

impl vstd::std_specs::convert::FromSpecImpl<i64> for Literal {
    open spec fn obeys_from_spec() -> bool {
        true
    }

    open spec fn from_spec(i: i64) -> Literal {
        Literal::BigInt(i)
    }
}

impl From<String> for Literal {
    fn from(s: String) -> (r: Literal) {
        Literal::String(s)
    }
}

impl vstd::std_specs::convert::FromSpecImpl<String> for Literal {
    open spec fn obeys_from_spec() -> bool {
        true
    }

    open spec fn from_spec(s: String) -> Literal {
        Literal::String(s)
    }
}

} // verus!
