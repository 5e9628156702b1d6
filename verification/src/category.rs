//! Classifications of an element, and the display colour of each group block.

use vstd::prelude::*;

verus! {

/// A colour as three channels, each from 0 to 255.
#[derive(Clone, Copy, Debug, PartialEq, Eq, Structural)]
pub struct Rgb {
    pub r: u8,
    pub g: u8,
    pub b: u8,
}

/// The group block of an element: its chemical family.
#[derive(Clone, Copy, Debug, PartialEq, Eq, Structural)]
pub enum GroupBlock {
    AlkaliMetal,
    AlkalineEarthMetal,
    Lanthanide,
    Actinide,
    TransitionMetal,
    PostTransitionMetal,
    Metalloid,
    NonMetal,
    Halogen,
    NobleGas,
}

/// The phase of an element at standard conditions.
#[derive(Clone, Copy, Debug, PartialEq, Eq, Structural)]
pub enum StateOfMatter {
    Solid,
    Liquid,
    Gas,
}

impl GroupBlock {
    /// The display name of the group block.
    pub open spec fn name_spec(self) -> Seq<char> {
        match self {
            GroupBlock::AlkaliMetal => "Alkali Metal"@,
            GroupBlock::AlkalineEarthMetal => "Alkaline Earth Metal"@,
            GroupBlock::Lanthanide => "Lanthanide"@,
            GroupBlock::Actinide => "Actinide"@,
            GroupBlock::TransitionMetal => "Transition Metal"@,
            GroupBlock::PostTransitionMetal => "Post-Transition Metal"@,
            GroupBlock::Metalloid => "Metalloid"@,
            GroupBlock::NonMetal => "Nonmetal"@,
            GroupBlock::Halogen => "Halogen"@,
            GroupBlock::NobleGas => "Noble Gas"@,
        }
    }

    /// The display colour of the group block.
    pub open spec fn color_spec(self) -> Rgb {
        match self {
            GroupBlock::AlkaliMetal => Rgb { r: 255, g: 102, b: 102 },
            GroupBlock::AlkalineEarthMetal => Rgb { r: 255, g: 222, b: 173 },
            GroupBlock::Lanthanide => Rgb { r: 255, g: 191, b: 255 },
            GroupBlock::Actinide => Rgb { r: 255, g: 153, b: 204 },
            GroupBlock::TransitionMetal => Rgb { r: 255, g: 192, b: 192 },
            GroupBlock::PostTransitionMetal => Rgb { r: 204, g: 204, b: 204 },
            GroupBlock::Metalloid => Rgb { r: 204, g: 204, b: 153 },
            GroupBlock::NonMetal => Rgb { r: 160, g: 255, b: 160 },
            GroupBlock::Halogen => Rgb { r: 255, g: 255, b: 153 },
            GroupBlock::NobleGas => Rgb { r: 192, g: 255, b: 255 },
        }
    }

    /// Returns the display name of the group block.
    pub fn name(&self) -> (s: &'static str)
        ensures
            s@ == self.name_spec(),
    {
        match self {
            GroupBlock::AlkaliMetal => "Alkali Metal",
            GroupBlock::AlkalineEarthMetal => "Alkaline Earth Metal",
            GroupBlock::Lanthanide => "Lanthanide",
            GroupBlock::Actinide => "Actinide",
            GroupBlock::TransitionMetal => "Transition Metal",
            GroupBlock::PostTransitionMetal => "Post-Transition Metal",
            GroupBlock::Metalloid => "Metalloid",
            GroupBlock::NonMetal => "Nonmetal",
            GroupBlock::Halogen => "Halogen",
            GroupBlock::NobleGas => "Noble Gas",
        }
    }

    /// Returns the display colour of the group block.
    pub fn color(&self) -> (c: Rgb)
        ensures
            c == self.color_spec(),
    {
        match self {
            GroupBlock::AlkaliMetal => Rgb { r: 255, g: 102, b: 102 },
            GroupBlock::AlkalineEarthMetal => Rgb { r: 255, g: 222, b: 173 },
            GroupBlock::Lanthanide => Rgb { r: 255, g: 191, b: 255 },
            GroupBlock::Actinide => Rgb { r: 255, g: 153, b: 204 },
            GroupBlock::TransitionMetal => Rgb { r: 255, g: 192, b: 192 },
            GroupBlock::PostTransitionMetal => Rgb { r: 204, g: 204, b: 204 },
            GroupBlock::Metalloid => Rgb { r: 204, g: 204, b: 153 },
            GroupBlock::NonMetal => Rgb { r: 160, g: 255, b: 160 },
            GroupBlock::Halogen => Rgb { r: 255, g: 255, b: 153 },
            GroupBlock::NobleGas => Rgb { r: 192, g: 255, b: 255 },
        }
    }

    /// No two group blocks share a display colour.
    pub proof fn lemma_color_is_injective(a: GroupBlock, b: GroupBlock)
        requires
            a.color_spec() == b.color_spec(),
        ensures
            a == b,
    {
    }
}

impl StateOfMatter {
    /// The display name of the state.
    pub open spec fn name_spec(self) -> Seq<char> {
        match self {
            StateOfMatter::Solid => "Solid"@,
            StateOfMatter::Liquid => "Liquid"@,
            StateOfMatter::Gas => "Gas"@,
        }
    }

    /// Returns the display name of the state.
    pub fn name(&self) -> (s: &'static str)
        ensures
            s@ == self.name_spec(),
    {
        match self {
            StateOfMatter::Solid => "Solid",
            StateOfMatter::Liquid => "Liquid",
            StateOfMatter::Gas => "Gas",
        }
    }
}

} // verus!
