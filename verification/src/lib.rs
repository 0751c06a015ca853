//! Compile-time overload dispatch over two capability traits.
//!
//! A value is presented as one capability by wrapping it in [`AsTrait1`] or
//! [`AsTrait2`]; the wrapper's implementation of the dispatch traits fixes a
//! static tag, and the entry points [`f`] and [`f_xor`] branch on that tag
//! alone. No runtime inspection of the wrapped value ever happens: a pair of
//! wrappers that does not cover both capabilities exactly once simply fails
//! to satisfy [`PairAsTraits1Xor2`] and is rejected by the compiler.

use vstd::prelude::*;

verus! {

/// First capability: one argument-free operation yielding an unsigned integer.
pub trait Trait1 {
    /// The integer that `method1` yields.
    spec fn spec_method1(&self) -> u32;

    /// Whether `method1` may be invoked on this value. Real implementors keep
    /// this true; only the sentinel, whose invocation is a defect, makes it
    /// false.
    spec fn method1_allowed(&self) -> bool;

    fn method1(&self) -> (r: u32)
        requires
            self.method1_allowed(),
        ensures
            r == self.spec_method1(),
    ;
}

/// Second capability: one argument-free operation yielding a text value.
pub trait Trait2 {
    /// The text that `method2` yields, as a sequence of characters.
    spec fn spec_method2(&self) -> Seq<char>;

    /// Whether `method2` may be invoked on this value. Real implementors keep
    /// this true; only the sentinel, whose invocation is a defect, makes it
    /// false.
    spec fn method2_allowed(&self) -> bool;

    fn method2(&self) -> (r: String)
        requires
            self.method2_allowed(),
        ensures
            r@ == self.spec_method2(),
    ;
}

/// Sentinel implementor of [`Trait1`]: stands in for the absent operand in a
/// dispatch branch that is never taken. Its operation may never be invoked
/// (`method1_allowed` is false); if unverified code invokes it anyway, the
/// process aborts rather than produce a value.
pub struct NoImplTrait1;

/// Sentinel implementor of [`Trait2`]; see [`NoImplTrait1`].
pub struct NoImplTrait2;

impl Trait1 for NoImplTrait1 {
    open spec fn spec_method1(&self) -> u32 {
        0
    }

    open spec fn method1_allowed(&self) -> bool {
        false
    }

    fn method1(&self) -> (r: u32) {
        vstd::pervasive::unreached()
    }
}

impl Trait2 for NoImplTrait2 {
    open spec fn spec_method2(&self) -> Seq<char> {
        Seq::empty()
    }

    open spec fn method2_allowed(&self) -> bool {
        false
    }

    fn method2(&self) -> (r: String) {
        vstd::pervasive::unreached()
    }
}

/// A [`Trait1`] implementor that yields a fixed integer, for hosts that do
/// not bring an implementor of their own.
pub struct ConstInt(pub u32);

/// A [`Trait2`] implementor that yields a fixed text, for hosts that do not
/// bring an implementor of their own.
pub struct ConstText(pub String);

impl Trait1 for ConstInt {
    open spec fn spec_method1(&self) -> u32 {
        self.0
    }

    open spec fn method1_allowed(&self) -> bool {
        true
    }

    fn method1(&self) -> (r: u32) {
        self.0
    }
}

impl Trait2 for ConstText {
    open spec fn spec_method2(&self) -> Seq<char> {
        self.0@
    }

    open spec fn method2_allowed(&self) -> bool {
        true
    }

    fn method2(&self) -> (r: String) {
        self.0.clone()
    }
}

/// Presents a borrowed value as a [`Trait1`] operand.
#[derive(Clone, Copy)]
pub struct AsTrait1<'a, T: Trait1>(pub &'a T);

/// Presents a borrowed value as a [`Trait2`] operand.
#[derive(Clone, Copy)]
pub struct AsTrait2<'a, T: Trait2>(pub &'a T);

/// The static tag of a single wrapper: which capability it carries.
pub enum AllTraits {
    Trait1,
    Trait2,
}

/// Compile-time classifier of a single wrapper. Each implementation fixes
/// `spec_tag` once and for all; the accessor for the capability the wrapper
/// does not carry still type-checks and returns a reference to the matching
/// sentinel, so that generic code can name both accessors uniformly, but its
/// result carries no usable contract and must never be consulted.
pub trait AsTrait1Or2 {
    /// Type returned by the [`Trait1`] accessor.
    type C1: Trait1;

    /// Type returned by the [`Trait2`] accessor.
    type C2: Trait2;

    /// The capability this wrapper statically carries.
    spec fn spec_tag() -> AllTraits;

    /// Whether the operation of the carried capability may be invoked on the
    /// wrapped value.
    spec fn allowed(&self) -> bool;

    /// The integer the wrapped value yields, when the tag is `Trait1`.
    spec fn val1(&self) -> u32;

    /// The text the wrapped value yields, when the tag is `Trait2`.
    spec fn val2(&self) -> Seq<char>;

    /// Runtime witness of the static tag.
    fn tag() -> (t: AllTraits)
        ensures
            t == Self::spec_tag(),
    ;

    /// The wrapped value when the tag is `Trait1`, the sentinel otherwise.
    fn t1(&self) -> (r: &Self::C1)
        ensures
            Self::spec_tag() is Trait1 ==> r.spec_method1() == self.val1(),
            Self::spec_tag() is Trait1 && self.allowed() ==> r.method1_allowed(),
    ;

    /// The wrapped value when the tag is `Trait2`, the sentinel otherwise.
    fn t2(&self) -> (r: &Self::C2)
        ensures
            Self::spec_tag() is Trait2 ==> r.spec_method2() == self.val2(),
            Self::spec_tag() is Trait2 && self.allowed() ==> r.method2_allowed(),
    ;
}

impl<'a, T: Trait1> AsTrait1Or2 for AsTrait1<'a, T> {
    type C1 = T;

    type C2 = NoImplTrait2;

    open spec fn spec_tag() -> AllTraits {
        AllTraits::Trait1
    }

    open spec fn allowed(&self) -> bool {
        self.0.method1_allowed()
    }

    open spec fn val1(&self) -> u32 {
        self.0.spec_method1()
    }

    open spec fn val2(&self) -> Seq<char> {
        Seq::empty()
    }

    fn tag() -> (t: AllTraits) {
        AllTraits::Trait1
    }

    fn t1(&self) -> (r: &T) {
        self.0
    }

    fn t2(&self) -> (r: &NoImplTrait2) {
        &NoImplTrait2
    }
}

impl<'a, T: Trait2> AsTrait1Or2 for AsTrait2<'a, T> {
    type C1 = NoImplTrait1;

    type C2 = T;

    open spec fn spec_tag() -> AllTraits {
        AllTraits::Trait2
    }

    open spec fn allowed(&self) -> bool {
        self.0.method2_allowed()
    }

    open spec fn val1(&self) -> u32 {
        0
    }

    open spec fn val2(&self) -> Seq<char> {
        self.0.spec_method2()
    }

    fn tag() -> (t: AllTraits) {
        AllTraits::Trait2
    }

    fn t1(&self) -> (r: &NoImplTrait1) {
        &NoImplTrait1
    }

    fn t2(&self) -> (r: &T) {
        self.0
    }
}

/// Result of [`f`]: the text of a `Trait2` operand, or the integers of two
/// `Trait1` operands in call order.
#[derive(PartialEq)]
pub enum FResult {
    Str(String),
    IntInt(u32, u32),
}

/// Commutative binary overload. If either operand carries `Trait2`, its text
/// is returned, the left operand winning when both do — the right operand's
/// operation is then never invoked, which is why its `allowed()` is not
/// required in that case. If both operands carry `Trait1`, their integers are
/// returned in call order.
pub fn f<T1: AsTrait1Or2, T2: AsTrait1Or2>(x: T1, y: T2) -> (r: FResult)
    requires
        T1::spec_tag() is Trait2 ==> x.allowed(),
        T1::spec_tag() is Trait1 && T2::spec_tag() is Trait2 ==> y.allowed(),
        T1::spec_tag() is Trait1 && T2::spec_tag() is Trait1 ==> x.allowed() && y.allowed(),
    ensures
        T1::spec_tag() is Trait2 ==> (r matches FResult::Str(s) && s@ == x.val2()),
        T1::spec_tag() is Trait1 && T2::spec_tag() is Trait2 ==> (r matches FResult::Str(s)
            && s@ == y.val2()),
        T1::spec_tag() is Trait1 && T2::spec_tag() is Trait1 ==> r == FResult::IntInt(
            x.val1(),
            y.val1(),
        ),
{
    // The match must stay exhaustive over the full product of the two tags.
    match (T1::tag(), T2::tag()) {
        (AllTraits::Trait2, _) => FResult::Str(x.t2().method2()),
        (_, AllTraits::Trait2) => FResult::Str(y.t2().method2()),
        (AllTraits::Trait1, AllTraits::Trait1) => FResult::IntInt(
            x.t1().method1(),
            y.t1().method1(),
        ),
    }
}

/// The static tag of a wrapper pair: which of the two valid orderings it is.
pub enum XorTraits {
    Traits1And2,
    Traits2And1,
}

/// Compile-time classifier of a wrapper pair. It is implemented only for the
/// two tuple shapes that cover both capabilities exactly once — a pair of two
/// `Trait1` wrappers or two `Trait2` wrappers satisfies no implementation and
/// is rejected before any code runs. As in [`AsTrait1Or2`], the accessor for
/// the ordering the pair does not have returns sentinels and must never be
/// consulted.
pub trait PairAsTraits1Xor2 {
    /// Type of the `Trait1` component returned by `t12`.
    type A1: Trait1;

    /// Type of the `Trait2` component returned by `t12`.
    type A2: Trait2;

    /// Type of the `Trait2` component returned by `t21`.
    type B2: Trait2;

    /// Type of the `Trait1` component returned by `t21`.
    type B1: Trait1;

    /// The ordering this pair statically has.
    spec fn spec_tags() -> XorTraits;

    /// Whether both wrapped values' operations may be invoked.
    spec fn allowed(&self) -> bool;

    /// The integer the `Trait1` component yields.
    spec fn int_val(&self) -> u32;

    /// The text the `Trait2` component yields.
    spec fn text_val(&self) -> Seq<char>;

    /// Runtime witness of the static ordering tag.
    fn tags() -> (t: XorTraits)
        ensures
            t == Self::spec_tags(),
    ;

    /// The wrapped values in (`Trait1`, `Trait2`) order when the ordering is
    /// `Traits1And2`, sentinels otherwise.
    fn t12(&self) -> (r: (&Self::A1, &Self::A2))
        ensures
            Self::spec_tags() is Traits1And2 ==> r.0.spec_method1() == self.int_val(),
            Self::spec_tags() is Traits1And2 ==> r.1.spec_method2() == self.text_val(),
            Self::spec_tags() is Traits1And2 && self.allowed() ==> r.0.method1_allowed()
                && r.1.method2_allowed(),
    ;

    /// The wrapped values in (`Trait2`, `Trait1`) order when the ordering is
    /// `Traits2And1`, sentinels otherwise.
    fn t21(&self) -> (r: (&Self::B2, &Self::B1))
        ensures
            Self::spec_tags() is Traits2And1 ==> r.0.spec_method2() == self.text_val(),
            Self::spec_tags() is Traits2And1 ==> r.1.spec_method1() == self.int_val(),
            Self::spec_tags() is Traits2And1 && self.allowed() ==> r.0.method2_allowed()
                && r.1.method1_allowed(),
    ;
}

impl<'a, 'b, T1: Trait1, T2: Trait2> PairAsTraits1Xor2 for (AsTrait1<'a, T1>, AsTrait2<'b, T2>) {
    type A1 = T1;

    type A2 = T2;

    type B2 = NoImplTrait2;

    type B1 = NoImplTrait1;

    open spec fn spec_tags() -> XorTraits {
        XorTraits::Traits1And2
    }

    open spec fn allowed(&self) -> bool {
        self.0.0.method1_allowed() && self.1.0.method2_allowed()
    }

    open spec fn int_val(&self) -> u32 {
        self.0.0.spec_method1()
    }

    open spec fn text_val(&self) -> Seq<char> {
        self.1.0.spec_method2()
    }

    fn tags() -> (t: XorTraits) {
        XorTraits::Traits1And2
    }

    fn t12(&self) -> (r: (&T1, &T2)) {
        (self.0.0, self.1.0)
    }

    fn t21(&self) -> (r: (&NoImplTrait2, &NoImplTrait1)) {
        (&NoImplTrait2, &NoImplTrait1)
    }
}

impl<'a, 'b, T1: Trait2, T2: Trait1> PairAsTraits1Xor2 for (AsTrait2<'a, T1>, AsTrait1<'b, T2>) {
    type A1 = NoImplTrait1;

    type A2 = NoImplTrait2;

    type B2 = T1;

    type B1 = T2;

    open spec fn spec_tags() -> XorTraits {
        XorTraits::Traits2And1
    }

    open spec fn allowed(&self) -> bool {
        self.0.0.method2_allowed() && self.1.0.method1_allowed()
    }

    open spec fn int_val(&self) -> u32 {
        self.1.0.spec_method1()
    }

    open spec fn text_val(&self) -> Seq<char> {
        self.0.0.spec_method2()
    }

    fn tags() -> (t: XorTraits) {
        XorTraits::Traits2And1
    }

    fn t12(&self) -> (r: (&NoImplTrait1, &NoImplTrait2)) {
        (&NoImplTrait1, &NoImplTrait2)
    }

    fn t21(&self) -> (r: (&T1, &T2)) {
        (self.0.0, self.1.0)
    }
}

/// Result of [`f_xor`]: integer and text in the order the operands carried
/// their capabilities.
#[derive(PartialEq)]
pub enum FXorResult {
    IntStr(u32, String),
    StrInt(String, u32),
}

/// Exclusive-pair overload. The pair must cover both capabilities exactly
/// once — any other shape fails the [`PairAsTraits1Xor2`] bound at compile
/// time — and the result holds the integer and the text in the operands'
/// order.
pub fn f_xor<P: PairAsTraits1Xor2>(x_y: P) -> (r: FXorResult)
    requires
        x_y.allowed(),
    ensures
        P::spec_tags() is Traits1And2 ==> (r matches FXorResult::IntStr(i, s) && i
            == x_y.int_val() && s@ == x_y.text_val()),
        P::spec_tags() is Traits2And1 ==> (r matches FXorResult::StrInt(s, i) && s@
            == x_y.text_val() && i == x_y.int_val()),
{
    match P::tags() {
        XorTraits::Traits1And2 => {
            let (x, y) = x_y.t12();
            FXorResult::IntStr(x.method1(), y.method2())
        },
        XorTraits::Traits2And1 => {
            let (x, y) = x_y.t21();
            FXorResult::StrInt(x.method2(), y.method1())
        },
    }
}

} // verus!
