//! Units, their classes and elements, and the balancing tables.
//!
//! Every multiplier is an exact [`Ratio`]. The tables are fixed: a class gives
//! the base values of a unit, an element scales hit points and damage, and the
//! three elements beat each other in a cycle.

use crate::ratio::{lemma_times_one, Ratio, WideRatio};
use vstd::prelude::*;

verus! {

/// The damage of a ranged unit is scaled by this when a melee unit attacks it:
/// numerator and denominator of 1/4.
pub const RANGED_MELEE_MULT: (u64, u64) = (1, 4);

/// After a fight every surviving unit heals by this fraction of its maximal
/// hit points: numerator and denominator of 1/5.
pub const END_FIGHT_HEAL_AMOUNT: (u64, u64) = (1, 5);

/// The combat role of a unit.
#[derive(Debug, Clone, Copy, PartialEq, Eq, Structural)]
pub enum Class {
    Melee,
    Ranged,
}

impl Class {
    /// The class that a roll stands for: the rolls take the classes in turn.
    pub open spec fn of_roll(roll: u64) -> Class {
        if roll % 2 == 0 {
            Class::Melee
        } else {
            Class::Ranged
        }
    }

    /// Picks a class from a roll that the caller drew.
    ///
    /// Each class is picked by one roll of any two in a row, so that an evenly
    /// distributed roll gives an evenly distributed class.
    pub fn new(roll: u64) -> (class: Class)
        ensures
            class == Class::of_roll(roll),
    {
        if roll % 2 == 0 {
            Class::Melee
        } else {
            Class::Ranged
        }
    }

    /// Base hit points: 7/10 for melee, 1 for ranged.
    pub open spec fn spec_base_hp(&self) -> Ratio {
        match self {
            Class::Melee => Ratio { num: 7, den: 10 },
            Class::Ranged => Ratio { num: 1, den: 1 },
        }
    }

    /// Base hit points.
    #[verifier::when_used_as_spec(spec_base_hp)]
    pub fn base_hp(&self) -> (r: Ratio)
        ensures
            r == self.spec_base_hp(),
            *self == Class::Melee ==> r.num == 7 && r.den == 10,
            *self == Class::Ranged ==> r.num == 1 && r.den == 1,
    {
        match self {
            Class::Melee => Ratio { num: 7, den: 10 },
            Class::Ranged => Ratio { num: 1, den: 1 },
        }
    }

    /// Base damage: 1 for melee, 29/20 for ranged.
    pub open spec fn spec_base_damage(&self) -> Ratio {
        match self {
            Class::Melee => Ratio { num: 1, den: 1 },
            Class::Ranged => Ratio { num: 29, den: 20 },
        }
    }

    /// Base damage.
    #[verifier::when_used_as_spec(spec_base_damage)]
    pub fn base_damage(&self) -> (r: Ratio)
        ensures
            r == self.spec_base_damage(),
            *self == Class::Melee ==> r.num == 1 && r.den == 1,
            *self == Class::Ranged ==> r.num == 29 && r.den == 20,
    {
        match self {
            Class::Melee => Ratio { num: 1, den: 1 },
            Class::Ranged => Ratio { num: 29, den: 20 },
        }
    }

    /// Base block: 1/20 for melee, 0 for ranged.
    pub open spec fn spec_base_block(&self) -> Ratio {
        match self {
            Class::Melee => Ratio { num: 1, den: 20 },
            Class::Ranged => Ratio { num: 0, den: 1 },
        }
    }

    /// Base block.
    #[verifier::when_used_as_spec(spec_base_block)]
    pub fn base_block(&self) -> (r: Ratio)
        ensures
            r == self.spec_base_block(),
            *self == Class::Melee ==> r.num == 1 && r.den == 20,
            *self == Class::Ranged ==> r.num == 0 && r.den == 1,
    {
        match self {
            Class::Melee => Ratio { num: 1, den: 20 },
            Class::Ranged => Ratio { num: 0, den: 1 },
        }
    }

    /// Base regeneration: 3/10 for melee, 1/5 for ranged.
    pub open spec fn spec_base_regen(&self) -> Ratio {
        match self {
            Class::Melee => Ratio { num: 3, den: 10 },
            Class::Ranged => Ratio { num: 1, den: 5 },
        }
    }

    /// Base regeneration.
    #[verifier::when_used_as_spec(spec_base_regen)]
    pub fn base_regen(&self) -> (r: Ratio)
        ensures
            r == self.spec_base_regen(),
            *self == Class::Melee ==> r.num == 3 && r.den == 10,
            *self == Class::Ranged ==> r.num == 1 && r.den == 5,
    {
        match self {
            Class::Melee => Ratio { num: 3, den: 10 },
            Class::Ranged => Ratio { num: 1, den: 5 },
        }
    }
}

/// The elemental type of a unit. Red beats green, green beats blue, blue beats
/// red.
#[derive(Debug, Clone, Copy, PartialEq, Eq, Structural)]
pub enum Element {
    Red,
    Green,
    Blue,
}

impl Element {
    /// The element that a roll stands for: the rolls take the elements in turn.
    pub open spec fn of_roll(roll: u64) -> Element {
        if roll % 3 == 0 {
            Element::Red
        } else if roll % 3 == 1 {
            Element::Green
        } else {
            Element::Blue
        }
    }

    /// Picks an element from a roll that the caller drew.
    ///
    /// Each element is picked by one roll of any three in a row, so that an
    /// evenly distributed roll gives an evenly distributed element.
    pub fn new(roll: u64) -> (element: Element)
        ensures
            element == Element::of_roll(roll),
    {
        let rest: u64 = roll % 3;
        if rest == 0 {
            Element::Red
        } else if rest == 1 {
            Element::Green
        } else {
            Element::Blue
        }
    }

    /// The element that this one beats: the next in the cycle red, green, blue.
    pub open spec fn prey(self) -> Element {
        match self {
            Element::Red => Element::Green,
            Element::Green => Element::Blue,
            Element::Blue => Element::Red,
        }
    }

    /// Hit point multiplier: 5/6 for red, 6/5 for green, 1 for blue.
    pub open spec fn spec_hp_mult(&self) -> Ratio {
        match self {
            Element::Red => Ratio { num: 5, den: 6 },
            Element::Green => Ratio { num: 6, den: 5 },
            Element::Blue => Ratio { num: 1, den: 1 },
        }
    }

    /// Hit point multiplier.
    #[verifier::when_used_as_spec(spec_hp_mult)]
    pub fn hp_mult(&self) -> (r: Ratio)
        ensures
            r == self.spec_hp_mult(),
    {
        match self {
            Element::Red => Ratio { num: 5, den: 6 },
            Element::Green => Ratio { num: 6, den: 5 },
            Element::Blue => Ratio { num: 1, den: 1 },
        }
    }

    /// Damage multiplier: 6/5 for red, 5/6 for green, 1 for blue.
    pub open spec fn spec_damage_mult(&self) -> Ratio {
        match self {
            Element::Red => Ratio { num: 6, den: 5 },
            Element::Green => Ratio { num: 5, den: 6 },
            Element::Blue => Ratio { num: 1, den: 1 },
        }
    }

    /// Damage multiplier.
    #[verifier::when_used_as_spec(spec_damage_mult)]
    pub fn damage_mult(&self) -> (r: Ratio)
        ensures
            r == self.spec_damage_mult(),
    {
        match self {
            Element::Red => Ratio { num: 6, den: 5 },
            Element::Green => Ratio { num: 5, den: 6 },
            Element::Blue => Ratio { num: 1, den: 1 },
        }
    }

    /// The multiplier of an attack by this element on a unit of the element
    /// `other`: 3/2 on its prey, 2/3 on the element whose prey it is, 1 on its
    /// own kind.
    pub open spec fn spec_damage_vs(&self, other: &Element) -> Ratio {
        if *other == *self {
            Ratio { num: 1, den: 1 }
        } else if *other == self.prey() {
            Ratio { num: 3, den: 2 }
        } else {
            Ratio { num: 2, den: 3 }
        }
    }

    /// The multiplier of an attack by this element on a unit of the element
    /// `other`.
    #[verifier::when_used_as_spec(spec_damage_vs)]
    pub fn damage_vs(&self, other: &Element) -> (r: Ratio)
        ensures
            r == self.spec_damage_vs(other),
    {
        match self {
            Element::Red => match other {
                Element::Red => Ratio { num: 1, den: 1 },
                Element::Green => Ratio { num: 3, den: 2 },
                Element::Blue => Ratio { num: 2, den: 3 },
            },
            Element::Green => match other {
                Element::Red => Ratio { num: 2, den: 3 },
                Element::Green => Ratio { num: 1, den: 1 },
                Element::Blue => Ratio { num: 3, den: 2 },
            },
            Element::Blue => match other {
                Element::Red => Ratio { num: 3, den: 2 },
                Element::Green => Ratio { num: 2, den: 3 },
                Element::Blue => Ratio { num: 1, den: 1 },
            },
        }
    }
}

/// A unit as its owner knows it.
#[derive(Debug, Clone, Copy, PartialEq, Eq, Structural)]
pub struct Unit {
    pub class: Class,
    pub element: Element,
    pub hp: Ratio,
    pub max_hp: Ratio,
}

impl Unit {
    /// Both hit point values are numbers, and the unit has at most its maximal
    /// hit points. (A [`Ratio`] cannot be negative.)
    pub open spec fn well_formed(self) -> bool {
        &&& self.hp.well_formed()
        &&& self.max_hp.well_formed()
        &&& self.hp.spec_at_most(self.max_hp)
    }
}

/// A unit as an opponent sees it: each field may be unknown, whatever the
/// others are.
#[derive(Debug, Clone, Copy, PartialEq, Eq, Structural)]
pub struct UnitView {
    pub class: Option<Class>,
    pub element: Option<Element>,
    pub frac_hp: Option<Ratio>,
}

impl UnitView {
    /// The view that knows nothing.
    pub open spec fn unknown() -> UnitView {
        UnitView { class: None, element: None, frac_hp: None }
    }

    /// The view that knows nothing.
    pub fn new() -> (view: UnitView)
        ensures
            view == UnitView::unknown(),
    {
        UnitView { class: None, element: None, frac_hp: None }
    }

    /// Base hit points of the class, or one if the class is unknown.
    pub open spec fn class_hp(self) -> Ratio {
        match self.class {
            Some(class) => class.spec_base_hp(),
            None => Ratio::spec_one(),
        }
    }

    /// Base damage of the class, or one if the class is unknown.
    pub open spec fn class_damage(self) -> Ratio {
        match self.class {
            Some(class) => class.spec_base_damage(),
            None => Ratio::spec_one(),
        }
    }

    /// Hit point multiplier of the element, or one if the element is unknown.
    pub open spec fn element_hp(self) -> Ratio {
        match self.element {
            Some(element) => element.spec_hp_mult(),
            None => Ratio::spec_one(),
        }
    }

    /// The known fraction of hit points left, or one if it is unknown.
    pub open spec fn fraction_left(self) -> Ratio {
        match self.frac_hp {
            Some(fraction) => fraction,
            None => Ratio::spec_one(),
        }
    }

    /// Maximal hit points: those of the class times the multiplier of the
    /// element.
    pub open spec fn spec_max_hp(&self) -> Ratio {
        self.class_hp().spec_times(self.element_hp())
    }

    /// Hit points: the maximal hit points times the fraction left.
    pub open spec fn spec_hp(&self) -> WideRatio {
        self.spec_max_hp().spec_times_wide(self.fraction_left())
    }

    /// Damage: that of the class times the hit point multiplier of the element
    /// (not its damage multiplier).
    pub open spec fn spec_damage(&self) -> Ratio {
        self.class_damage().spec_times(self.element_hp())
    }

    /// Hit points: the maximal hit points times the fraction left, where an
    /// unknown fraction counts as one. The product is formed in 128 bits, so
    /// that every fraction has one.
    #[verifier::when_used_as_spec(spec_hp)]
    pub fn hp(&self) -> (r: WideRatio)
        ensures
            r == self.spec_hp(),
            r.num == self.class_hp().num * self.element_hp().num * self.fraction_left().num,
            r.den == self.class_hp().den * self.element_hp().den * self.fraction_left().den,
    {
        let whole = self.max_hp();
        match self.frac_hp {
            Some(fraction) => whole.times_wide(fraction),
            None => whole.times_wide(Ratio::one()),
        }
    }

    /// Maximal hit points, where an unknown class or element counts as one.
    #[verifier::when_used_as_spec(spec_max_hp)]
    pub fn max_hp(&self) -> (r: Ratio)
        ensures
            r == self.spec_max_hp(),
            r.num == self.class_hp().num * self.element_hp().num,
            r.den == self.class_hp().den * self.element_hp().den,
            0 < r.num <= 42,
            0 < r.den <= 60,
    {
        let by_class = match self.class {
            Some(class) => class.base_hp(),
            None => Ratio::one(),
        };
        let by_element = match self.element {
            Some(element) => element.hp_mult(),
            None => Ratio::one(),
        };
        by_class.times(by_element)
    }

    /// Damage, where an unknown class or element counts as one.
    #[verifier::when_used_as_spec(spec_damage)]
    pub fn damage(&self) -> (r: Ratio)
        ensures
            r == self.spec_damage(),
            r.num == self.class_damage().num * self.element_hp().num,
            r.den == self.class_damage().den * self.element_hp().den,
    {
        let by_class = match self.class {
            Some(class) => class.base_damage(),
            None => Ratio::one(),
        };
        let by_element = match self.element {
            Some(element) => element.hp_mult(),
            None => Ratio::one(),
        };
        by_class.times(by_element)
    }
}

/// Of any two rolls in a row, one picks each class.
pub proof fn lemma_class_rolls_take_turns(roll: u64)
    requires
        roll < u64::MAX,
    ensures
        Class::of_roll(roll) != Class::of_roll((roll + 1) as u64),
        Class::of_roll(roll) == Class::of_roll((roll % 2) as u64),
{
}

/// Of any three rolls in a row, one picks each element.
pub proof fn lemma_element_rolls_take_turns(roll: u64)
    requires
        roll + 2 <= u64::MAX,
    ensures
        Element::of_roll((roll + 1) as u64) == Element::of_roll(roll).prey(),
        Element::of_roll((roll + 2) as u64) == Element::of_roll(roll).prey().prey(),
        Element::of_roll(roll) == Element::of_roll((roll % 3) as u64),
{
}

/// Advantage and disadvantage mirror each other: the multiplier of `a` on `b`
/// times that of `b` on `a` is one, and on its own kind an element has the
/// multiplier one.
pub proof fn lemma_damage_vs_mirrored(a: Element, b: Element)
    ensures
        a.spec_damage_vs(&b).is_reciprocal_of(b.spec_damage_vs(&a)),
        a.spec_damage_vs(&b).spec_times(b.spec_damage_vs(&a)).is_one(),
        a == b ==> a.spec_damage_vs(&b) == Ratio::spec_one(),
        a != b ==> !a.spec_damage_vs(&b).is_one(),
{
}

/// What an element gains in hit points it loses in damage: the two multipliers
/// of an element are reciprocal. Blue has one for both, and red and green have
/// each other's multipliers.
pub proof fn lemma_element_mults_reciprocal(e: Element)
    ensures
        e.spec_hp_mult().is_reciprocal_of(e.spec_damage_mult()),
        e.spec_hp_mult().spec_times(e.spec_damage_mult()).is_one(),
        Element::Blue.spec_hp_mult() == Ratio::spec_one(),
        Element::Blue.spec_damage_mult() == Ratio::spec_one(),
        Element::Red.spec_hp_mult() == Element::Green.spec_damage_mult(),
        Element::Green.spec_hp_mult() == Element::Red.spec_damage_mult(),
        Element::Red.spec_hp_mult().is_reciprocal_of(Element::Green.spec_hp_mult()),
        Element::Red.spec_damage_mult().is_reciprocal_of(Element::Green.spec_damage_mult()),
{
}

/// A view that knows nothing has one for hit points, maximal hit points and
/// damage; and any view without a known fraction has its maximal hit points.
pub proof fn lemma_unknown_view_is_neutral(view: UnitView)
    ensures
        UnitView::unknown().spec_hp() == (WideRatio { num: 1, den: 1 }),
        UnitView::unknown().spec_max_hp() == Ratio::spec_one(),
        UnitView::unknown().spec_damage() == Ratio::spec_one(),
        view.frac_hp is None ==> view.spec_hp().num == view.spec_max_hp().num
            && view.spec_hp().den == view.spec_max_hp().den,
        view.frac_hp is None ==> view.spec_hp().same_value_as(view.spec_max_hp()),
{
    lemma_times_one(Ratio::spec_one());
    lemma_times_one(view.spec_max_hp());
    let whole = view.spec_max_hp();
    assert(whole.num * whole.den == whole.num * whole.den);
}

} // verus!
