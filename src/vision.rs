//! Colour vision and colour vision deficiency, described by the condition of
//! the three kinds of cone cells in the retina.
use vstd::prelude::*;

verus! {

/// A type of photoreceptor cell in the retina, responsible for colour vision.
#[derive(Debug, Clone, Copy, PartialEq, Eq, Hash, Structural)]
pub enum ConeCell {
    /// Long wavelength cone (L), most sensitive to red light.
    Long,
    /// Medium wavelength cone (M), most sensitive to green light.
    Medium,
    /// Short wavelength cone (S), most sensitive to blue light.
    Short,
}

/// The cone cell named by a letter: its length (`l`, `m`, `s`) or its primary
/// colour (`r`, `g`, `b`), in either case.
pub open spec fn cone_of_char(c: char) -> Option<ConeCell> {
    if c == 'l' || c == 'L' || c == 'r' || c == 'R' {
        Some(ConeCell::Long)
    } else if c == 'm' || c == 'M' || c == 'g' || c == 'G' {
        Some(ConeCell::Medium)
    } else if c == 's' || c == 'S' || c == 'b' || c == 'B' {
        Some(ConeCell::Short)
    } else {
        None
    }
}

impl ConeCell {
    /// The cone cell named by `c`, or `Err(())` for any other character.
    pub fn from_char(c: char) -> (r: Result<ConeCell, ()>)
        ensures
            r == (match cone_of_char(c) {
                Some(cone) => Ok(cone),
                None => Err(()),
            }),
    {
        if c == 'l' || c == 'L' || c == 'r' || c == 'R' {
            Ok(ConeCell::Long)
        } else if c == 'm' || c == 'M' || c == 'g' || c == 'G' {
            Ok(ConeCell::Medium)
        } else if c == 's' || c == 'S' || c == 'b' || c == 'B' {
            Ok(ConeCell::Short)
        } else {
            Err(())
        }
    }
}

impl core::convert::TryFrom<char> for ConeCell {
    type Error = ();

    fn try_from(c: char) -> (r: Result<ConeCell, ()>) {
        ConeCell::from_char(c)
    }
}

impl vstd::std_specs::convert::TryFromSpecImpl<char> for ConeCell {
    open spec fn obeys_try_from_spec() -> bool {
        true
    }

    open spec fn try_from_spec(c: char) -> Result<ConeCell, ()> {
        match cone_of_char(c) {
            Some(cone) => Ok(cone),
            None => Err(()),
        }
    }
}

/// The condition (state of health) of a cone cell.
#[derive(Debug, Clone, Copy, PartialEq, Eq, Hash, Structural)]
pub enum ConeCellCond {
    /// Present and healthy.
    Normal,
    /// Present, with a lower spectral sensitivity.
    Anomalous,
    /// Not present.
    Missing,
}

impl ConeCellCond {
    pub fn is_normal(&self) -> (r: bool)
        ensures
            r == (*self == ConeCellCond::Normal),
    {
        matches!(self, ConeCellCond::Normal)
    }

    pub fn is_anomalous(&self) -> (r: bool)
        ensures
            r == (*self == ConeCellCond::Anomalous),
    {
        matches!(self, ConeCellCond::Anomalous)
    }

    pub fn is_missing(&self) -> (r: bool)
        ensures
            r == (*self == ConeCellCond::Missing),
    {
        matches!(self, ConeCellCond::Missing)
    }
}

impl Default for ConeCellCond {
    fn default() -> (r: ConeCellCond)
        ensures
            r == ConeCellCond::Normal,
    {
        ConeCellCond::Normal
    }
}

/// The conditions of all three cone cells: long, medium and short.
#[derive(Debug, Clone, Copy, PartialEq, Eq, Hash, Structural)]
pub struct ConeCellSummary {
    pub l: ConeCellCond,
    pub m: ConeCellCond,
    pub s: ConeCellCond,
}

impl ConeCellSummary {
    /// The condition of the given cone.
    pub open spec fn cond_of(self, cone: ConeCell) -> ConeCellCond {
        match cone {
            ConeCell::Long => self.l,
            ConeCell::Medium => self.m,
            ConeCell::Short => self.s,
        }
    }

    /// A summary from the conditions of the long, medium and short cones.
    pub fn new(l: ConeCellCond, m: ConeCellCond, s: ConeCellCond) -> (r: ConeCellSummary)
        ensures
            r == (ConeCellSummary { l, m, s }),
    {
        ConeCellSummary { l, m, s }
    }

    /// A summary from the conditions of the red, green and blue cones.
    pub fn rgb(r: ConeCellCond, g: ConeCellCond, b: ConeCellCond) -> (res: ConeCellSummary)
        ensures
            res == (ConeCellSummary { l: r, m: g, s: b }),
    {
        ConeCellSummary::new(r, g, b)
    }

    pub fn long(&self) -> (r: ConeCellCond)
        ensures
            r == self.l,
    {
        self.l
    }

    pub fn medium(&self) -> (r: ConeCellCond)
        ensures
            r == self.m,
    {
        self.m
    }

    pub fn short(&self) -> (r: ConeCellCond)
        ensures
            r == self.s,
    {
        self.s
    }

    /// The long cone, most sensitive to red light.
    pub fn red(&self) -> (r: ConeCellCond)
        ensures
            r == self.l,
    {
        self.l
    }

    /// The medium cone, most sensitive to green light.
    pub fn green(&self) -> (r: ConeCellCond)
        ensures
            r == self.m,
    {
        self.m
    }

    /// The short cone, most sensitive to blue light.
    pub fn blue(&self) -> (r: ConeCellCond)
        ensures
            r == self.s,
    {
        self.s
    }

    /// The condition of the given cone.
    pub fn cond(&self, cone: ConeCell) -> (r: ConeCellCond)
        ensures
            r == self.cond_of(cone),
    {
        match cone {
            ConeCell::Long => self.l,
            ConeCell::Medium => self.m,
            ConeCell::Short => self.s,
        }
    }

    pub fn is_cone_normal(&self, cone: ConeCell) -> (r: bool)
        ensures
            r == (self.cond_of(cone) == ConeCellCond::Normal),
    {
        self.cond(cone).is_normal()
    }

    pub fn is_cone_anomalous(&self, cone: ConeCell) -> (r: bool)
        ensures
            r == (self.cond_of(cone) == ConeCellCond::Anomalous),
    {
        self.cond(cone).is_anomalous()
    }

    pub fn is_cone_missing(&self, cone: ConeCell) -> (r: bool)
        ensures
            r == (self.cond_of(cone) == ConeCellCond::Missing),
    {
        self.cond(cone).is_missing()
    }

    pub fn as_tuple(&self) -> (r: (ConeCellCond, ConeCellCond, ConeCellCond))
        ensures
            r == (self.l, self.m, self.s),
    {
        (self.l, self.m, self.s)
    }

    pub fn as_array(&self) -> (r: [ConeCellCond; 3])
        ensures
            r@ == seq![self.l, self.m, self.s],
    {
        [self.l, self.m, self.s]
    }
}

impl Default for ConeCellSummary {
    /// Every cone normal.
    fn default() -> (r: ConeCellSummary)
        ensures
            r == summary_of(ColorVision::Normal),
    {
        ConeCellSummary::new(ConeCellCond::Normal, ConeCellCond::Normal, ConeCellCond::Normal)
    }
}

impl From<(ConeCellCond, ConeCellCond, ConeCellCond)> for ConeCellSummary {
    fn from(v: (ConeCellCond, ConeCellCond, ConeCellCond)) -> (r: ConeCellSummary) {
        ConeCellSummary::new(v.0, v.1, v.2)
    }
}

impl vstd::std_specs::convert::FromSpecImpl<(ConeCellCond, ConeCellCond, ConeCellCond)> for ConeCellSummary {
    open spec fn obeys_from_spec() -> bool {
        true
    }

    open spec fn from_spec(v: (ConeCellCond, ConeCellCond, ConeCellCond)) -> ConeCellSummary {
        ConeCellSummary { l: v.0, m: v.1, s: v.2 }
    }
}

impl From<[ConeCellCond; 3]> for ConeCellSummary {
    fn from(v: [ConeCellCond; 3]) -> (r: ConeCellSummary) {
        ConeCellSummary::new(v[0], v[1], v[2])
    }
}

impl vstd::std_specs::convert::FromSpecImpl<[ConeCellCond; 3]> for ConeCellSummary {
    open spec fn obeys_from_spec() -> bool {
        true
    }

    open spec fn from_spec(v: [ConeCellCond; 3]) -> ConeCellSummary {
        ConeCellSummary { l: v@[0], m: v@[1], s: v@[2] }
    }
}

impl core::ops::Index<usize> for ConeCellSummary {
    type Output = ConeCellCond;

    /// Index 0, 1 and 2 give the long, medium and short cone.
    fn index(&self, index: usize) -> (r: &ConeCellCond)
        ensures
            index == 0 ==> *r == self.l,
            index == 1 ==> *r == self.m,
            index == 2 ==> *r == self.s,
    {
        if index == 0 {
            &self.l
        } else if index == 1 {
            &self.m
        } else {
            &self.s
        }
    }
}

impl vstd::std_specs::core::IndexSpecImpl<usize> for ConeCellSummary {
    open spec fn index_req(&self, index: &usize) -> bool {
        *index < 3
    }
}

impl core::ops::Index<char> for ConeCellSummary {
    type Output = ConeCellCond;

    /// A letter as `ConeCell::from_char` reads it selects the cone.
    fn index(&self, index: char) -> (r: &ConeCellCond)
        ensures
            cone_of_char(index) matches Some(cone) ==> *r == self.cond_of(cone),
    {
        if index == 'l' || index == 'L' || index == 'r' || index == 'R' {
            &self.l
        } else if index == 'm' || index == 'M' || index == 'g' || index == 'G' {
            &self.m
        } else {
            &self.s
        }
    }
}

impl core::ops::IndexMut<usize> for ConeCellSummary {
    /// Index 0 and 1 give the long and medium cone; any other index, the
    /// short cone, as no precondition can exclude it here.
    fn index_mut(&mut self, index: usize) -> (r: &mut ConeCellCond)
        ensures
            index == 0 ==> *r == old(self).l && *final(self) == (ConeCellSummary {
                l: *final(r),
                ..*old(self)
            }),
            index == 1 ==> *r == old(self).m && *final(self) == (ConeCellSummary {
                m: *final(r),
                ..*old(self)
            }),
            index >= 2 ==> *r == old(self).s && *final(self) == (ConeCellSummary {
                s: *final(r),
                ..*old(self)
            }),
    {
        if index == 0 {
            &mut self.l
        } else if index == 1 {
            &mut self.m
        } else {
            &mut self.s
        }
    }
}

impl core::ops::IndexMut<char> for ConeCellSummary {
    /// A letter as `ConeCell::from_char` reads it selects the cone; any other
    /// character, the short cone, as no precondition can exclude it here.
    fn index_mut(&mut self, index: char) -> (r: &mut ConeCellCond)
        ensures
            cone_of_char(index) == Some(ConeCell::Long) ==> *r == old(self).l && *final(self) == (
            ConeCellSummary { l: *final(r), ..*old(self) }),
            cone_of_char(index) == Some(ConeCell::Medium) ==> *r == old(self).m && *final(self) == (
            ConeCellSummary { m: *final(r), ..*old(self) }),
            !(cone_of_char(index) == Some(ConeCell::Long) || cone_of_char(index) == Some(
                ConeCell::Medium,
            )) ==> *r == old(self).s && *final(self) == (ConeCellSummary {
                s: *final(r),
                ..*old(self)
            }),
    {
        if index == 'l' || index == 'L' || index == 'r' || index == 'R' {
            &mut self.l
        } else if index == 'm' || index == 'M' || index == 'g' || index == 'G' {
            &mut self.m
        } else {
            &mut self.s
        }
    }
}

impl vstd::std_specs::core::IndexSpecImpl<char> for ConeCellSummary {
    open spec fn index_req(&self, index: &char) -> bool {
        cone_of_char(*index).is_some()
    }
}

/// A kind of colour vision, normal or deficient.
#[derive(Debug, Clone, Copy, PartialEq, Eq, Hash, Structural)]
pub enum ColorVision {
    Normal,
    Protanomaly,
    Protanopia,
    Deuteranomaly,
    Deuteranopia,
    Tritanomaly,
    Tritanopia,
    Achromatomaly,
    Achromatopsia,
}

/// The cone conditions that characterise each kind of colour vision.
pub open spec fn summary_of(v: ColorVision) -> ConeCellSummary {
    let n = ConeCellCond::Normal;
    let a = ConeCellCond::Anomalous;
    let x = ConeCellCond::Missing;
    match v {
        ColorVision::Normal => ConeCellSummary { l: n, m: n, s: n },
        ColorVision::Protanomaly => ConeCellSummary { l: a, m: n, s: n },
        ColorVision::Protanopia => ConeCellSummary { l: x, m: n, s: n },
        ColorVision::Deuteranomaly => ConeCellSummary { l: n, m: a, s: n },
        ColorVision::Deuteranopia => ConeCellSummary { l: n, m: x, s: n },
        ColorVision::Tritanomaly => ConeCellSummary { l: n, m: n, s: a },
        ColorVision::Tritanopia => ConeCellSummary { l: n, m: n, s: x },
        ColorVision::Achromatomaly => ConeCellSummary { l: x, m: x, s: n },
        ColorVision::Achromatopsia => ConeCellSummary { l: x, m: x, s: x },
    }
}

/// The kind of colour vision whose cone conditions are `s`, if any.
pub open spec fn vision_of(s: ConeCellSummary) -> Option<ColorVision> {
    if exists|v: ColorVision| summary_of(v) == s {
        Some(choose|v: ColorVision| summary_of(v) == s)
    } else {
        None
    }
}

/// Distinct kinds of colour vision have distinct cone conditions.
pub proof fn lemma_summary_of_injective(a: ColorVision, b: ColorVision)
    ensures
        summary_of(a) == summary_of(b) ==> a == b,
{
}

impl ColorVision {
    pub fn is_protan(&self) -> (r: bool)
        ensures
            r == (*self == ColorVision::Protanomaly || *self == ColorVision::Protanopia),
    {
        matches!(self, ColorVision::Protanomaly | ColorVision::Protanopia)
    }

    pub fn is_deutan(&self) -> (r: bool)
        ensures
            r == (*self == ColorVision::Deuteranomaly || *self == ColorVision::Deuteranopia),
    {
        matches!(self, ColorVision::Deuteranomaly | ColorVision::Deuteranopia)
    }

    pub fn is_tritan(&self) -> (r: bool)
        ensures
            r == (*self == ColorVision::Tritanomaly || *self == ColorVision::Tritanopia),
    {
        matches!(self, ColorVision::Tritanomaly | ColorVision::Tritanopia)
    }

    /// A protan or deutan deficiency.
    pub fn is_red_green(&self) -> (r: bool)
        ensures
            r == (*self == ColorVision::Protanomaly || *self == ColorVision::Protanopia
                || *self == ColorVision::Deuteranomaly || *self == ColorVision::Deuteranopia),
    {
        self.is_protan() || self.is_deutan()
    }

    /// A tritan deficiency.
    pub fn is_blue_yellow(&self) -> (r: bool)
        ensures
            r == (*self == ColorVision::Tritanomaly || *self == ColorVision::Tritanopia),
    {
        self.is_tritan()
    }

    pub fn is_monochromacy(&self) -> (r: bool)
        ensures
            r == (*self == ColorVision::Achromatomaly || *self == ColorVision::Achromatopsia),
    {
        matches!(self, ColorVision::Achromatomaly | ColorVision::Achromatopsia)
    }

    /// Exactly one cone anomalous, the others normal.
    pub fn is_anomalous_trichromacy(&self) -> (r: bool)
        ensures
            r == (*self == ColorVision::Protanomaly || *self == ColorVision::Deuteranomaly
                || *self == ColorVision::Tritanomaly),
    {
        matches!(
            self,
            ColorVision::Protanomaly | ColorVision::Deuteranomaly | ColorVision::Tritanomaly
        )
    }

    /// Exactly one cone missing, the others normal.
    pub fn is_dichromacy(&self) -> (r: bool)
        ensures
            r == (*self == ColorVision::Protanopia || *self == ColorVision::Deuteranopia
                || *self == ColorVision::Tritanopia),
    {
        matches!(self, ColorVision::Protanopia | ColorVision::Deuteranopia | ColorVision::Tritanopia)
    }

    /// The cone conditions of this kind of colour vision.
    pub fn summary(&self) -> (r: ConeCellSummary)
        ensures
            r == summary_of(*self),
    {
        let n = ConeCellCond::Normal;
        let a = ConeCellCond::Anomalous;
        let x = ConeCellCond::Missing;
        match self {
            ColorVision::Normal => ConeCellSummary::new(n, n, n),
            ColorVision::Protanomaly => ConeCellSummary::new(a, n, n),
            ColorVision::Protanopia => ConeCellSummary::new(x, n, n),
            ColorVision::Deuteranomaly => ConeCellSummary::new(n, a, n),
            ColorVision::Deuteranopia => ConeCellSummary::new(n, x, n),
            ColorVision::Tritanomaly => ConeCellSummary::new(n, n, a),
            ColorVision::Tritanopia => ConeCellSummary::new(n, n, x),
            ColorVision::Achromatomaly => ConeCellSummary::new(x, x, n),
            ColorVision::Achromatopsia => ConeCellSummary::new(x, x, x),
        }
    }

    /// The kind of colour vision with the given cone conditions, or `Err(())`
    /// where no kind has them.
    pub fn from_summary(s: ConeCellSummary) -> (r: Result<ColorVision, ()>)
        ensures
            r == (match vision_of(s) {
                Some(v) => Ok(v),
                None => Err(()),
            }),
            r matches Ok(v) ==> summary_of(v) == s,
    {
        let n = ConeCellCond::Normal;
        let a = ConeCellCond::Anomalous;
        let x = ConeCellCond::Missing;
        let r = if s.l == n && s.m == n && s.s == n {
            Ok(ColorVision::Normal)
        } else if s.l == a && s.m == n && s.s == n {
            Ok(ColorVision::Protanomaly)
        } else if s.l == x && s.m == n && s.s == n {
            Ok(ColorVision::Protanopia)
        } else if s.l == n && s.m == a && s.s == n {
            Ok(ColorVision::Deuteranomaly)
        } else if s.l == n && s.m == x && s.s == n {
            Ok(ColorVision::Deuteranopia)
        } else if s.l == n && s.m == n && s.s == a {
            Ok(ColorVision::Tritanomaly)
        } else if s.l == n && s.m == n && s.s == x {
            Ok(ColorVision::Tritanopia)
        } else if s.l == x && s.m == x && s.s == n {
            Ok(ColorVision::Achromatomaly)
        } else if s.l == x && s.m == x && s.s == x {
            Ok(ColorVision::Achromatopsia)
        } else {
            Err(())
        };
        proof {
            match r {
                Ok(v) => {
                    assert(summary_of(v) == s);
                    assert forall|w: ColorVision| summary_of(w) == s implies w == v by {
                        lemma_summary_of_injective(w, v);
                    }
                },
                Err(_) => {
                    assert forall|w: ColorVision| summary_of(w) != s by {}
                },
            }
        }
        r
    }
}

impl Default for ColorVision {
    fn default() -> (r: ColorVision)
        ensures
            r == ColorVision::Normal,
    {
        ColorVision::Normal
    }
}

impl From<ColorVision> for ConeCellSummary {
    fn from(v: ColorVision) -> (r: ConeCellSummary) {
        v.summary()
    }
}

impl vstd::std_specs::convert::FromSpecImpl<ColorVision> for ConeCellSummary {
    open spec fn obeys_from_spec() -> bool {
        true
    }

    open spec fn from_spec(v: ColorVision) -> ConeCellSummary {
        summary_of(v)
    }
}

impl core::convert::TryFrom<ConeCellSummary> for ColorVision {
    type Error = ();

    fn try_from(s: ConeCellSummary) -> (r: Result<ColorVision, ()>) {
        ColorVision::from_summary(s)
    }
}

impl vstd::std_specs::convert::TryFromSpecImpl<ConeCellSummary> for ColorVision {
    open spec fn obeys_try_from_spec() -> bool {
        true
    }

    open spec fn try_from_spec(s: ConeCellSummary) -> Result<ColorVision, ()> {
        match vision_of(s) {
            Some(v) => Ok(v),
            None => Err(()),
        }
    }
}

} // verus!
