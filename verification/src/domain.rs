//! The six colors a cell can take, and the set of colors still open to it.

use vstd::prelude::*;

verus! {

/// The concrete color of a resolved cell.
#[derive(Clone, Copy, Debug, PartialEq, Eq, Hash, Structural)]
pub enum Collapsed {
    Gray,
    Red,
    Yellow,
    Green,
    LBlue,
    DBlue,
}

/// The color written into the entrance and the pillar cells.
pub open spec fn marker_color() -> Collapsed {
    Collapsed::Red
}

/// The color written into every carved path cell.
pub open spec fn carved_color() -> Collapsed {
    Collapsed::Gray
}

impl Collapsed {
    /// The index of the color's texture, 0 to 5.
    pub open spec fn texture(self) -> int {
        match self {
            Collapsed::Gray => 0,
            Collapsed::Red => 1,
            Collapsed::Yellow => 2,
            Collapsed::Green => 3,
            Collapsed::LBlue => 4,
            Collapsed::DBlue => 5,
        }
    }

    /// The color that has texture index `index`.
    pub open spec fn of_texture(index: int) -> Option<Collapsed> {
        if index == 0 {
            Some(Collapsed::Gray)
        } else if index == 1 {
            Some(Collapsed::Red)
        } else if index == 2 {
            Some(Collapsed::Yellow)
        } else if index == 3 {
            Some(Collapsed::Green)
        } else if index == 4 {
            Some(Collapsed::LBlue)
        } else if index == 5 {
            Some(Collapsed::DBlue)
        } else {
            None
        }
    }

    pub fn to_texture(&self) -> (index: u32)
        ensures
            index == self.texture(),
            index < 6,
    {
        match self {
            Collapsed::Gray => 0,
            Collapsed::Red => 1,
            Collapsed::Yellow => 2,
            Collapsed::Green => 3,
            Collapsed::LBlue => 4,
            Collapsed::DBlue => 5,
        }
    }

    /// The color of a texture index; `None` for an index that is no color's.
    pub fn from_texture(index: u32) -> (color: Option<Collapsed>)
        ensures
            color == Collapsed::of_texture(index as int),
            color is Some <==> index < 6,
    {
        if index == 0 {
            Some(Collapsed::Gray)
        } else if index == 1 {
            Some(Collapsed::Red)
        } else if index == 2 {
            Some(Collapsed::Yellow)
        } else if index == 3 {
            Some(Collapsed::Green)
        } else if index == 4 {
            Some(Collapsed::LBlue)
        } else if index == 5 {
            Some(Collapsed::DBlue)
        } else {
            None
        }
    }

    /// Colors and texture indices 0 to 5 correspond one to one.
    pub proof fn texture_is_one_to_one(a: Collapsed, b: Collapsed, index: int)
        ensures
            0 <= a.texture() < 6,
            Collapsed::of_texture(a.texture()) == Some(a),
            a.texture() == b.texture() ==> a == b,
            0 <= index < 6 ==> Collapsed::of_texture(index) is Some && Collapsed::of_texture(
                index,
            )->0.texture() == index,
    {
    }
}

pub open spec fn flag(b: bool) -> int {
    if b {
        1
    } else {
        0
    }
}

/// The colors a cell may still take: one flag per color.
#[derive(Clone, Copy, Debug, PartialEq, Eq, Hash, Structural)]
pub struct ConstraintDomain {
    pub gray: bool,
    pub red: bool,
    pub yellow: bool,
    pub green: bool,
    pub lblue: bool,
    pub dblue: bool,
}

impl ConstraintDomain {
    /// Whether `color` is still admissible.
    pub open spec fn allows(self, color: Collapsed) -> bool {
        match color {
            Collapsed::Gray => self.gray,
            Collapsed::Red => self.red,
            Collapsed::Yellow => self.yellow,
            Collapsed::Green => self.green,
            Collapsed::LBlue => self.lblue,
            Collapsed::DBlue => self.dblue,
        }
    }

    /// The number of admissible colors.
    pub open spec fn count(self) -> int {
        flag(self.gray) + flag(self.red) + flag(self.yellow) + flag(self.green) + flag(self.lblue)
            + flag(self.dblue)
    }

    /// The number of admissible colors whose texture index is below `index`.
    pub open spec fn count_below(self, index: int) -> int {
        (if index > 0 {
            flag(self.gray)
        } else {
            0
        }) + (if index > 1 {
            flag(self.red)
        } else {
            0
        }) + (if index > 2 {
            flag(self.yellow)
        } else {
            0
        }) + (if index > 3 {
            flag(self.green)
        } else {
            0
        }) + (if index > 4 {
            flag(self.lblue)
        } else {
            0
        }) + (if index > 5 {
            flag(self.dblue)
        } else {
            0
        })
    }

    /// The domain with every color admissible.
    pub open spec fn all() -> ConstraintDomain {
        ConstraintDomain {
            gray: true,
            red: true,
            yellow: true,
            green: true,
            lblue: true,
            dblue: true,
        }
    }

    /// The domain with `color` struck out.
    pub open spec fn excluding(self, color: Collapsed) -> ConstraintDomain {
        match color {
            Collapsed::Gray => ConstraintDomain { gray: false, ..self },
            Collapsed::Red => ConstraintDomain { red: false, ..self },
            Collapsed::Yellow => ConstraintDomain { yellow: false, ..self },
            Collapsed::Green => ConstraintDomain { green: false, ..self },
            Collapsed::LBlue => ConstraintDomain { lblue: false, ..self },
            Collapsed::DBlue => ConstraintDomain { dblue: false, ..self },
        }
    }

    /// Whether `color` is the admissible color number `rank`, counting the
    /// admissible colors from 0 in the order of their texture indices.
    pub open spec fn is_choice(self, rank: int, color: Collapsed) -> bool {
        self.allows(color) && self.count_below(color.texture()) == rank
    }

    /// The admissible color number `rank`.
    pub open spec fn choice(self, rank: int) -> Collapsed {
        if self.is_choice(rank, Collapsed::Gray) {
            Collapsed::Gray
        } else if self.is_choice(rank, Collapsed::Red) {
            Collapsed::Red
        } else if self.is_choice(rank, Collapsed::Yellow) {
            Collapsed::Yellow
        } else if self.is_choice(rank, Collapsed::Green) {
            Collapsed::Green
        } else if self.is_choice(rank, Collapsed::LBlue) {
            Collapsed::LBlue
        } else {
            Collapsed::DBlue
        }
    }

    pub fn full() -> (domain: ConstraintDomain)
        ensures
            domain == ConstraintDomain::all(),
            domain.count() == 6,
    {
        ConstraintDomain {
            gray: true,
            red: true,
            yellow: true,
            green: true,
            lblue: true,
            dblue: true,
        }
    }

    pub fn admits(&self, color: Collapsed) -> (yes: bool)
        ensures
            yes == self.allows(color),
    {
        match color {
            Collapsed::Gray => self.gray,
            Collapsed::Red => self.red,
            Collapsed::Yellow => self.yellow,
            Collapsed::Green => self.green,
            Collapsed::LBlue => self.lblue,
            Collapsed::DBlue => self.dblue,
        }
    }

    /// The count of admissible colors.
    pub fn entropy(&self) -> (n: u32)
        ensures
            n == self.count(),
            n <= 6,
    {
        let mut n: u32 = 0;
        if self.gray {
            n = n + 1;
        }
        if self.red {
            n = n + 1;
        }
        if self.yellow {
            n = n + 1;
        }
        if self.green {
            n = n + 1;
        }
        if self.lblue {
            n = n + 1;
        }
        if self.dblue {
            n = n + 1;
        }
        n
    }

    /// Strikes `color` out. No flag is ever set again, so the entropy of the
    /// result is that of `self`, or one less where `color` was admissible.
    pub fn without(&self, color: Collapsed) -> (domain: ConstraintDomain)
        ensures
            domain == self.excluding(color),
            domain.count() == self.count() - flag(self.allows(color)),
    {
        let gray: bool = self.gray && !matches!(color, Collapsed::Gray);
        let red: bool = self.red && !matches!(color, Collapsed::Red);
        let yellow: bool = self.yellow && !matches!(color, Collapsed::Yellow);
        let green: bool = self.green && !matches!(color, Collapsed::Green);
        let lblue: bool = self.lblue && !matches!(color, Collapsed::LBlue);
        let dblue: bool = self.dblue && !matches!(color, Collapsed::DBlue);
        ConstraintDomain { gray, red, yellow, green, lblue, dblue }
    }

    /// Striking a color out removes that color and no other, and adds none.
    pub proof fn excluding_removes_one(self, color: Collapsed, other: Collapsed)
        ensures
            self.excluding(color).allows(other) == (self.allows(other) && other != color),
            self.excluding(color).count() == self.count() - flag(self.allows(color)),
            self.excluding(color).count() <= self.count(),
    {
    }

    /// The admissible color number `rank`, counted from 0 in texture order.
    pub fn pick(&self, rank: u32) -> (color: Collapsed)
        requires
            rank < self.count(),
        ensures
            color == self.choice(rank as int),
            self.is_choice(rank as int, color),
    {
        let mut left: u32 = rank;
        if self.gray {
            if left == 0 {
                return Collapsed::Gray;
            }
            left = left - 1;
        }
        if self.red {
            if left == 0 {
                return Collapsed::Red;
            }
            left = left - 1;
        }
        if self.yellow {
            if left == 0 {
                return Collapsed::Yellow;
            }
            left = left - 1;
        }
        if self.green {
            if left == 0 {
                return Collapsed::Green;
            }
            left = left - 1;
        }
        if self.lblue {
            if left == 0 {
                return Collapsed::LBlue;
            }
            left = left - 1;
        }
        Collapsed::DBlue
    }
}

} // verus!
