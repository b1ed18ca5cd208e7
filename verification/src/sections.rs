//! The sections of a configuration text and the blocks that stand for them.
//!
//! A section is written as a block: its name and `{` on a line, its fields
//! on the lines that follow, and `}` on a line of its own. The blur settings
//! are a block inside `decoration`, the settings of the workspace overview a
//! block inside `plugin`.
use crate::text::{plain, spells};
use vstd::prelude::*;

verus! {

/// A section of the settings. `Top` is what stands outside every block.
#[derive(Clone, Copy, Debug, PartialEq, Eq)]
pub enum Section {
    Top,
    Input,
    Binds,
    Gestures,
    General,
    Dwindle,
    Decoration,
    Blur,
    Animations,
    Misc,
    Plugin,
    Hyprexpo,
}

impl Section {
    /// The name of the block of this section; `Top` has none.
    pub open spec fn name(self) -> Seq<char> {
        match self {
            Section::Top => ""@,
            Section::Input => "input"@,
            Section::Binds => "binds"@,
            Section::Gestures => "gestures"@,
            Section::General => "general"@,
            Section::Dwindle => "dwindle"@,
            Section::Decoration => "decoration"@,
            Section::Blur => "blur"@,
            Section::Animations => "animations"@,
            Section::Misc => "misc"@,
            Section::Plugin => "plugin"@,
            Section::Hyprexpo => "hyprexpo"@,
        }
    }

    /// The section that the block of this section stands in.
    pub open spec fn parent(self) -> Section {
        match self {
            Section::Blur => Section::Decoration,
            Section::Hyprexpo => Section::Plugin,
            _ => Section::Top,
        }
    }

    /// How many blocks are open inside this section.
    pub open spec fn depth(self) -> nat {
        match self {
            Section::Top => 0,
            Section::Blur => 2,
            Section::Hyprexpo => 2,
            _ => 1,
        }
    }

    /// The names of the blocks that are open inside this section, from the
    /// outermost inwards.
    pub open spec fn path(self) -> Seq<Seq<char>> {
        match self {
            Section::Top => Seq::<Seq<char>>::empty(),
            Section::Blur => seq![Section::Decoration.name(), Section::Blur.name()],
            Section::Hyprexpo => seq![Section::Plugin.name(), Section::Hyprexpo.name()],
            _ => seq![self.name()],
        }
    }

    /// The name of the block of this section.
    pub fn block_name(self) -> (name: &'static str)
        ensures
            name@ == self.name(),
    {
        match self {
            Section::Top => "",
            Section::Input => "input",
            Section::Binds => "binds",
            Section::Gestures => "gestures",
            Section::General => "general",
            Section::Dwindle => "dwindle",
            Section::Decoration => "decoration",
            Section::Blur => "blur",
            Section::Animations => "animations",
            Section::Misc => "misc",
            Section::Plugin => "plugin",
            Section::Hyprexpo => "hyprexpo",
        }
    }

    /// The section that the block of this section stands in.
    pub fn outer(self) -> (section: Section)
        ensures
            section == self.parent(),
    {
        match self {
            Section::Blur => Section::Decoration,
            Section::Hyprexpo => Section::Plugin,
            _ => Section::Top,
        }
    }

    /// How many blocks are open inside this section.
    pub fn level(self) -> (depth: usize)
        ensures
            depth == self.depth(),
    {
        match self {
            Section::Top => 0,
            Section::Blur => 2,
            Section::Hyprexpo => 2,
            _ => 1,
        }
    }
}

/// The name of every block is a plain name.
pub proof fn lemma_section_name_plain(section: Section)
    ensures
        section != Section::Top ==> plain(section.name()),
{
    reveal_strlit("input");
    reveal_strlit("binds");
    reveal_strlit("gestures");
    reveal_strlit("general");
    reveal_strlit("dwindle");
    reveal_strlit("decoration");
    reveal_strlit("blur");
    reveal_strlit("animations");
    reveal_strlit("misc");
    reveal_strlit("plugin");
    reveal_strlit("hyprexpo");
}

/// The path of a section is the path of the section around it with the
/// section's own name behind it.
pub proof fn lemma_path_of_parent(section: Section)
    ensures
        section != Section::Top ==> section.path() == section.parent().path().push(
            section.name(),
        ),
        section.path().len() == section.depth(),
        section != Section::Top ==> section.depth() == section.parent().depth() + 1,
{
    if section != Section::Top {
        assert(section.path() =~= section.parent().path().push(section.name()));
    }
}

/// No two sections have the same blocks open.
pub proof fn lemma_paths_distinct(s: Section, t: Section)
    requires
        s.path() == t.path(),
    ensures
        s == t,
{
    reveal_strlit("input");
    reveal_strlit("binds");
    reveal_strlit("gestures");
    reveal_strlit("general");
    reveal_strlit("dwindle");
    reveal_strlit("decoration");
    reveal_strlit("blur");
    reveal_strlit("animations");
    reveal_strlit("misc");
    reveal_strlit("plugin");
    reveal_strlit("hyprexpo");
    lemma_path_of_parent(s);
    lemma_path_of_parent(t);
    if s != Section::Top && t != Section::Top {
        assert(s.path().last() == s.name());
        assert(t.path().last() == t.name());
        assert(s.name()[0] == t.name()[0]);
    }
}

/// The blocks that are open at a place in a configuration text, from the
/// outermost inwards.
pub struct Blocks {
    pub names: Vec<Vec<char>>,
}

impl View for Blocks {
    type V = Seq<Seq<char>>;

    /// The names of the open blocks.
    open spec fn view(&self) -> Seq<Seq<char>> {
        Seq::new(self.names@.len(), |i: int| self.names@[i]@)
    }
}

impl Blocks {
    /// No block is open.
    pub fn new() -> (blocks: Blocks)
        ensures
            blocks@ == Seq::<Seq<char>>::empty(),
    {
        let blocks = Blocks { names: Vec::new() };
        assert(blocks@ =~= Seq::<Seq<char>>::empty());
        blocks
    }

    /// Opens a block named `name` inside the open ones.
    pub fn open(&mut self, name: Vec<char>)
        ensures
            final(self)@ == old(self)@.push(name@),
    {
        self.names.push(name);
        assert(self@ =~= old(self)@.push(name@));
    }

    /// Closes the innermost open block, if one is open.
    pub fn close(&mut self)
        ensures
            final(self)@ == if old(self)@.len() > 0 {
                old(self)@.drop_last()
            } else {
                old(self)@
            },
    {
        if self.names.len() > 0 {
            self.names.pop();
            assert(self@ =~= old(self)@.drop_last());
        }
    }

    /// Whether the open blocks are those of `section`, no more and no less.
    pub fn at(&self, section: Section) -> (b: bool)
        ensures
            b == (self@ == section.path()),
    {
        let depth = section.level();
        proof {
            lemma_path_of_parent(section);
        }
        if self.names.len() != depth {
            return false;
        }
        if depth == 0 {
            assert(self@ =~= section.path());
            true
        } else if depth == 1 {
            let same = spells(&self.names[0], section.block_name());
            proof {
                assert(self@[0] == self.names@[0]@);
                if same {
                    assert(self@ =~= section.path());
                }
            }
            same
        } else {
            let same = spells(&self.names[0], section.outer().block_name()) && spells(
                &self.names[1],
                section.block_name(),
            );
            proof {
                assert(self@[0] == self.names@[0]@);
                assert(self@[1] == self.names@[1]@);
                if same {
                    assert(self@ =~= section.path());
                }
            }
            same
        }
    }
}

} // verus!
