//! Value roles: named numeric slots on a node (length, height, radius, ...),
//! each holding one or more fixed-point values.
use vstd::prelude::*;

use crate::text::{chars_match_str, chars_of};

verus! {

#[derive(PartialEq, Eq, Structural, Clone, Copy, Debug)]
pub enum FTValueRole {
    Color,
    Width,
    Height,
    Radius,
    Thickness,
    Content,
    Length,
    Ratio,
    Rotation,
    Spacing,
    Offset,
    Cutout,
    X,
    Y,
    Z,
}

/// The value role named by a property keyword, if any.
pub open spec fn spec_value_role_from(s: Seq<char>) -> Option<FTValueRole> {
    if s == "color"@ {
        Some(FTValueRole::Color)
    } else if s == "width"@ {
        Some(FTValueRole::Width)
    } else if s == "height"@ {
        Some(FTValueRole::Height)
    } else if s == "radius"@ {
        Some(FTValueRole::Radius)
    } else if s == "thickness"@ {
        Some(FTValueRole::Thickness)
    } else if s == "content"@ {
        Some(FTValueRole::Content)
    } else if s == "length"@ {
        Some(FTValueRole::Length)
    } else if s == "ratio"@ {
        Some(FTValueRole::Ratio)
    } else if s == "rotation"@ {
        Some(FTValueRole::Rotation)
    } else if s == "spacing"@ {
        Some(FTValueRole::Spacing)
    } else if s == "offset"@ {
        Some(FTValueRole::Offset)
    } else if s == "cutout"@ {
        Some(FTValueRole::Cutout)
    } else if s == "x"@ {
        Some(FTValueRole::X)
    } else if s == "y"@ {
        Some(FTValueRole::Y)
    } else if s == "z"@ {
        Some(FTValueRole::Z)
    } else {
        None
    }
}

impl FTValueRole {
    /// Parse a property keyword into its value role.
    pub fn from_string(s: &str) -> (r: Option<FTValueRole>)
        ensures
            r == spec_value_role_from(s@),
    {
        let v = chars_of(s);
        FTValueRole::from_chars(&v)
    }

    /// As `from_string`, over an already-split character vector.
    pub fn from_chars(v: &Vec<char>) -> (r: Option<FTValueRole>)
        ensures
            r == spec_value_role_from(v@),
    {
        if chars_match_str(v, "color") {
            Some(FTValueRole::Color)
        } else if chars_match_str(v, "width") {
            Some(FTValueRole::Width)
        } else if chars_match_str(v, "height") {
            Some(FTValueRole::Height)
        } else if chars_match_str(v, "radius") {
            Some(FTValueRole::Radius)
        } else if chars_match_str(v, "thickness") {
            Some(FTValueRole::Thickness)
        } else if chars_match_str(v, "content") {
            Some(FTValueRole::Content)
        } else if chars_match_str(v, "length") {
            Some(FTValueRole::Length)
        } else if chars_match_str(v, "ratio") {
            Some(FTValueRole::Ratio)
        } else if chars_match_str(v, "rotation") {
            Some(FTValueRole::Rotation)
        } else if chars_match_str(v, "spacing") {
            Some(FTValueRole::Spacing)
        } else if chars_match_str(v, "offset") {
            Some(FTValueRole::Offset)
        } else if chars_match_str(v, "cutout") {
            Some(FTValueRole::Cutout)
        } else if chars_match_str(v, "x") {
            Some(FTValueRole::X)
        } else if chars_match_str(v, "y") {
            Some(FTValueRole::Y)
        } else if chars_match_str(v, "z") {
            Some(FTValueRole::Z)
        } else {
            None
        }
    }
}

/// Role-keyed lists of fixed-point values, in insertion order; a lookup
/// returns the values of the first entry with the requested role.
#[derive(Clone, Debug)]
pub struct FTValues {
    pub values: Vec<(FTValueRole, Vec<i64>)>,
}

/// First entry with the given role, searching from the front.
pub open spec fn spec_find_role(vs: Seq<(FTValueRole, Seq<i64>)>, role: FTValueRole) -> Option<
    Seq<i64>,
>
    decreases vs.len(),
{
    if vs.len() == 0 {
        None
    } else if vs[0].0 == role {
        Some(vs[0].1)
    } else {
        spec_find_role(vs.drop_first(), role)
    }
}

impl Default for FTValues {
    fn default() -> (r: Self)
        ensures
            r.view_entries() == Seq::<(FTValueRole, Seq<i64>)>::empty(),
    {
        let r = FTValues::new();
        proof {
            assert(r.view_entries() =~= Seq::<(FTValueRole, Seq<i64>)>::empty());
        }
        r
    }
}

impl FTValues {
    /// The mathematical contents: the entry sequence with vector views.
    pub open spec fn view_entries(&self) -> Seq<(FTValueRole, Seq<i64>)> {
        self.values@.map_values(|p: (FTValueRole, Vec<i64>)| (p.0, p.1@))
    }

    pub fn new() -> (r: Self)
        ensures
            r.view_entries() =~= Seq::<(FTValueRole, Seq<i64>)>::empty(),
    {
        FTValues { values: Vec::new() }
    }

    /// Append an entry for `role`.
    pub fn add(&mut self, role: FTValueRole, value: Vec<i64>)
        ensures
            final(self).view_entries() =~= old(self).view_entries().push((role, value@)),
    {
        self.values.push((role, value));
    }

    /// Append an entry keyed by a property keyword; false when the keyword
    /// names no value role.
    pub fn add_string_based(&mut self, role_string: &str, value: Vec<i64>) -> (r: bool)
        ensures
            r == (spec_value_role_from(role_string@) is Some),
            r ==> final(self).view_entries() =~= old(self).view_entries().push(
                (spec_value_role_from(role_string@)->Some_0, value@),
            ),
            !r ==> *final(self) == *old(self),
    {
        if let Some(role) = FTValueRole::from_string(role_string) {
            self.add(role, value);
            true
        } else {
            false
        }
    }

    /// The values of the first entry with `role`, or `default` when none.
    pub fn get(&self, role: FTValueRole, default: Vec<i64>) -> (r: Vec<i64>)
        ensures
            r@ == match spec_find_role(self.view_entries(), role) {
                Some(vs) => vs,
                None => default@,
            },
    {
        match self.get_option(role) {
            Some(v) => v,
            None => default,
        }
    }

    /// The values of the first entry with `role`, if any.
    pub fn get_option(&self, role: FTValueRole) -> (r: Option<Vec<i64>>)
        ensures
            match r {
                Some(v) => spec_find_role(self.view_entries(), role) == Some(v@),
                None => spec_find_role(self.view_entries(), role) is None,
            },
    {
        let n: usize = self.values.len();
        let mut i: usize = 0;
        proof {
            assert(self.view_entries().skip(0) =~= self.view_entries());
        }
        while i < n
            invariant
                i <= n,
                n == self.values@.len(),
                spec_find_role(self.view_entries(), role) == spec_find_role(
                    self.view_entries().skip(i as int),
                    role,
                ),
            decreases n - i,
        {
            proof {
                assert(self.view_entries().skip(i as int)[0] == self.view_entries()[i as int]);
            }
            if self.values[i].0 == role {
                let v = self.values[i].1.clone();
                proof {
                    assert(v@ == self.view_entries()[i as int].1);
                }
                return Some(v);
            }
            proof {
                assert(self.view_entries().skip(i as int).drop_first() =~= self.view_entries().skip(
                    i as int + 1,
                ));
            }
            i += 1;
        }
        proof {
            assert(self.view_entries().skip(n as int).len() == 0);
        }
        None
    }
}

} // verus!
