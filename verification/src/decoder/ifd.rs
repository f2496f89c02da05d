//! Metadata values.

use vstd::prelude::*;

verus! {

/// A metadata value, tagged with its category.
///
/// Reals are held as the bits of their IEEE 754 encoding.
#[derive(Debug, PartialEq)]
pub enum Value {
    Byte(u8),
    Signed(i32),
    SignedBig(i64),
    Unsigned(u32),
    UnsignedBig(u64),
    Float(u32),
    Double(u64),
    List(Vec<Value>),
    Rational(u32, u32),
    RationalBig(u64, u64),
    SRational(i32, i32),
    SRationalBig(i64, i64),
    Ascii(String),
}

/// What a [`Value`] holds, as a mathematical value.
pub ghost enum ValueView {
    Byte(u8),
    Signed(i32),
    SignedBig(i64),
    Unsigned(u32),
    UnsignedBig(u64),
    Float(u32),
    Double(u64),
    List(Seq<ValueView>),
    Rational(u32, u32),
    RationalBig(u64, u64),
    SRational(i32, i32),
    SRationalBig(i64, i64),
    Ascii(Seq<char>),
}

impl View for Value {
    type V = ValueView;

    open spec fn view(&self) -> ValueView
        decreases self,
    {
        match self {
            Value::Byte(v) => ValueView::Byte(*v),
            Value::Signed(v) => ValueView::Signed(*v),
            Value::SignedBig(v) => ValueView::SignedBig(*v),
            Value::Unsigned(v) => ValueView::Unsigned(*v),
            Value::UnsignedBig(v) => ValueView::UnsignedBig(*v),
            Value::Float(v) => ValueView::Float(*v),
            Value::Double(v) => ValueView::Double(*v),
            Value::List(items) => ValueView::List(
                Seq::new(
                    items@.len(),
                    |i: int|
                        if 0 <= i < items@.len() {
                            items@[i].view()
                        } else {
                            ValueView::Byte(0)
                        },
                ),
            ),
            Value::Rational(n, d) => ValueView::Rational(*n, *d),
            Value::RationalBig(n, d) => ValueView::RationalBig(*n, *d),
            Value::SRational(n, d) => ValueView::SRational(*n, *d),
            Value::SRationalBig(n, d) => ValueView::SRationalBig(*n, *d),
            Value::Ascii(text) => ValueView::Ascii(text@),
        }
    }
}

impl Clone for Value {
    fn clone(&self) -> (copy: Value)
        ensures
            copy@ == self@,
        decreases self,
    {
        match self {
            Value::Byte(v) => Value::Byte(*v),
            Value::Signed(v) => Value::Signed(*v),
            Value::SignedBig(v) => Value::SignedBig(*v),
            Value::Unsigned(v) => Value::Unsigned(*v),
            Value::UnsignedBig(v) => Value::UnsignedBig(*v),
            Value::Float(v) => Value::Float(*v),
            Value::Double(v) => Value::Double(*v),
            Value::List(items) => {
                let mut copies: Vec<Value> = Vec::new();
                let mut i: usize = 0;
                while i < items.len()
                    invariant
                        self is List,
                        self->List_0 == *items,
                        i <= items@.len(),
                        copies@.len() == i,
                        forall|k: int| 0 <= k < i ==> copies@[k]@ == items@[k]@,
                    decreases items@.len() - i,
                {
                    copies.push(items[i].clone());
                    i += 1;
                }
                let copy = Value::List(copies);
                assert(copy@->List_0 =~= self@->List_0);
                copy
            },
            Value::Rational(n, d) => Value::Rational(*n, *d),
            Value::RationalBig(n, d) => Value::RationalBig(*n, *d),
            Value::SRational(n, d) => Value::SRational(*n, *d),
            Value::SRationalBig(n, d) => Value::SRationalBig(*n, *d),
            Value::Ascii(text) => Value::Ascii(text.clone()),
        }
    }
}

} // verus!
