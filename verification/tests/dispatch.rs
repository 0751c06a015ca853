use std::cell::Cell;

use overloading::{
    f, f_xor, AsTrait1, AsTrait2, ConstInt, ConstText, FResult, FXorResult, Trait1, Trait2,
};

struct MyType1;
struct MyType2;
struct MyType3;

impl Trait1 for MyType1 {
    // Ghost items of the trait; erased from verified code and never invoked.
    fn spec_method1(&self) -> u32 {
        unreachable!()
    }

    fn method1_allowed(&self) -> bool {
        unreachable!()
    }

    fn method1(&self) -> u32 {
        7
    }
}

impl Trait2 for MyType2 {
    // Ghost items of the trait; erased from verified code and never invoked.
    fn spec_method2(&self) -> vstd::prelude::Seq<char> {
        unreachable!()
    }

    fn method2_allowed(&self) -> bool {
        unreachable!()
    }

    fn method2(&self) -> String {
        "asd".into()
    }
}

impl Trait1 for MyType3 {
    // Ghost items of the trait; erased from verified code and never invoked.
    fn spec_method1(&self) -> u32 {
        unreachable!()
    }

    fn method1_allowed(&self) -> bool {
        unreachable!()
    }

    fn method1(&self) -> u32 {
        3
    }
}

/// A `Trait2` implementor that counts how often its operation is invoked.
struct CountingText {
    calls: Cell<u32>,
    text: &'static str,
}

impl CountingText {
    fn new(text: &'static str) -> Self {
        CountingText { calls: Cell::new(0), text }
    }
}

impl Trait2 for CountingText {
    // Ghost items of the trait; erased from verified code and never invoked.
    fn spec_method2(&self) -> vstd::prelude::Seq<char> {
        unreachable!()
    }

    fn method2_allowed(&self) -> bool {
        unreachable!()
    }

    fn method2(&self) -> String {
        self.calls.set(self.calls.get() + 1);
        self.text.into()
    }
}

#[test]
fn f_both_trait1_returns_both_ints_in_call_order() {
    let t1 = MyType1;
    let t3 = MyType3;
    assert!(f(AsTrait1(&t1), AsTrait1(&t3)) == FResult::IntInt(7, 3));
    assert!(f(AsTrait1(&t3), AsTrait1(&t1)) == FResult::IntInt(3, 7));
    assert!(f(AsTrait1(&t1), AsTrait1(&t1)) == FResult::IntInt(7, 7));
}

#[test]
fn f_trait2_operand_wins_on_either_side() {
    let t1 = MyType1;
    let t2 = MyType2;
    assert!(f(AsTrait1(&t1), AsTrait2(&t2)) == FResult::Str("asd".into()));
    assert!(f(AsTrait2(&t2), AsTrait1(&t1)) == FResult::Str("asd".into()));
}

#[test]
fn f_both_trait2_left_text_wins_right_never_invoked() {
    let left = CountingText::new("left");
    let right = CountingText::new("right");
    assert!(f(AsTrait2(&left), AsTrait2(&right)) == FResult::Str("left".into()));
    assert!(left.calls.get() == 1);
    assert!(right.calls.get() == 0);
}

#[test]
fn f_xor_order12_gives_int_then_text() {
    let t1 = MyType1;
    let t2 = MyType2;
    assert!(f_xor((AsTrait1(&t1), AsTrait2(&t2))) == FXorResult::IntStr(7, "asd".into()));
}

#[test]
fn f_xor_order21_gives_text_then_int() {
    let t2 = MyType2;
    let t3 = MyType3;
    assert!(f_xor((AsTrait2(&t2), AsTrait1(&t3))) == FXorResult::StrInt("asd".into(), 3));
}

#[test]
fn library_provided_implementors_dispatch_the_same_way() {
    let i7 = ConstInt(7);
    let i3 = ConstInt(3);
    let txt = ConstText("asd".into());
    assert!(f(AsTrait1(&i7), AsTrait1(&i3)) == FResult::IntInt(7, 3));
    assert!(f(AsTrait1(&i7), AsTrait2(&txt)) == FResult::Str("asd".into()));
    assert!(f(AsTrait2(&txt), AsTrait1(&i7)) == FResult::Str("asd".into()));
    assert!(txt.method2() == "asd");
    assert!(i7.method1() == 7);
    assert!(f_xor((AsTrait1(&i7), AsTrait2(&txt))) == FXorResult::IntStr(7, "asd".into()));
    assert!(f_xor((AsTrait2(&txt), AsTrait1(&i3))) == FXorResult::StrInt("asd".into(), 3));
}

#[test]
fn full_scenario_matches_driver_expectations() {
    let t1 = MyType1;
    let t2 = MyType2;
    let t3 = MyType3;
    assert!(f(AsTrait1(&t1), AsTrait1(&t3)) == FResult::IntInt(7, 3));
    assert!(f(AsTrait1(&t1), AsTrait2(&t2)) == FResult::Str("asd".into()));
    assert!(f_xor((AsTrait1(&t1), AsTrait2(&t2))) == FXorResult::IntStr(7, "asd".into()));
    assert!(f_xor((AsTrait2(&t2), AsTrait1(&t3))) == FXorResult::StrInt("asd".into(), 3));
}
