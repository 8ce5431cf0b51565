use vstd::prelude::*;

use crate::color::{default_palette, Style};
use crate::input::Key;
use crate::text::str_eq;

verus! {

/// Describes the different input modes, which change the way that keystrokes will be interpreted.
#[derive(Clone, Copy, Debug, PartialEq, Eq, Structural, Hash)]
pub enum InputMode {
    /// In `Normal` mode, input is always written to the terminal, except for the shortcuts leading
    /// to other modes
    Normal,
    /// In `Locked` mode, input is always written to the terminal and all shortcuts are disabled
    /// except the one leading back to normal mode
    Locked,
    /// `Resize` mode allows resizing the different existing panes.
    Resize,
    /// `Pane` mode allows creating and closing panes, as well as moving between them.
    Pane,
    /// `Tab` mode allows creating and closing tabs, as well as moving between them.
    Tab,
    /// `Scroll` mode allows scrolling up and down within a pane.
    Scroll,
    /// `EnterSearch` mode allows for typing in the needle for a search in the scroll buffer of a pane.
    EnterSearch,
    /// `Search` mode allows for searching a term in a pane (superset of `Scroll`).
    Search,
    /// `RenameTab` mode allows assigning a new name to a tab.
    RenameTab,
    /// `RenamePane` mode allows assigning a new name to a pane.
    RenamePane,
    /// `Session` mode allows detaching sessions
    Session,
    /// `Move` mode allows moving the different existing panes within a tab
    Move,
    /// `Prompt` mode allows interacting with active prompts.
    Prompt,
    /// `Tmux` mode allows for basic tmux keybindings functionality
    Tmux,
}

impl Default for InputMode {
    fn default() -> (r: InputMode)
        ensures
            r == InputMode::Normal,
    {
        InputMode::Normal
    }
}

/// The canonical lowercase name of a mode, as written in configuration.
pub open spec fn mode_alias(m: InputMode) -> Seq<char> {
    match m {
        InputMode::Normal => "normal"@,
        InputMode::Locked => "locked"@,
        InputMode::Resize => "resize"@,
        InputMode::Pane => "pane"@,
        InputMode::Tab => "tab"@,
        InputMode::Scroll => "scroll"@,
        InputMode::EnterSearch => "entersearch"@,
        InputMode::Search => "search"@,
        InputMode::RenameTab => "renametab"@,
        InputMode::RenamePane => "renamepane"@,
        InputMode::Session => "session"@,
        InputMode::Move => "move"@,
        InputMode::Prompt => "prompt"@,
        InputMode::Tmux => "tmux"@,
    }
}

/// The mode whose canonical name is `s`, if there is one.
pub open spec fn mode_of_alias(s: Seq<char>) -> Option<InputMode> {
    if exists|m: InputMode| mode_alias(m) == s {
        Some(choose|m: InputMode| mode_alias(m) == s)
    } else {
        None
    }
}

/// No two modes share a canonical name.
pub proof fn lemma_mode_alias_injective(a: InputMode, b: InputMode)
    ensures
        mode_alias(a) == mode_alias(b) ==> a == b,
{
    reveal_strlit("normal");
    reveal_strlit("locked");
    reveal_strlit("resize");
    reveal_strlit("pane");
    reveal_strlit("tab");
    reveal_strlit("scroll");
    reveal_strlit("entersearch");
    reveal_strlit("search");
    reveal_strlit("renametab");
    reveal_strlit("renamepane");
    reveal_strlit("session");
    reveal_strlit("move");
    reveal_strlit("prompt");
    reveal_strlit("tmux");
    if mode_alias(a) == mode_alias(b) {
        assert(mode_alias(a).len() == mode_alias(b).len());
        assert(mode_alias(a)[0] == mode_alias(b)[0]);
        assert(mode_alias(a)[1] == mode_alias(b)[1]);
        assert(mode_alias(a)[2] == mode_alias(b)[2]);
        if mode_alias(a).len() > 6 {
            assert(mode_alias(a)[6] == mode_alias(b)[6]);
        }
    }
}

/// Parsing a mode's canonical name gives back that mode.
pub proof fn law_mode_alias_round_trip(m: InputMode)
    ensures
        mode_of_alias(mode_alias(m)) == Some(m),
{
    let c = choose|x: InputMode| mode_alias(x) == mode_alias(m);
    lemma_mode_alias_injective(c, m);
}

/// A string that names no input mode.
#[derive(Clone, Debug, PartialEq, Eq, Hash)]
pub struct UnknownInputMode {
    /// The string as it was given.
    pub input: String,
}

impl InputMode {
    /// The canonical lowercase name of this mode.
    pub fn alias(&self) -> (r: &'static str)
        ensures
            r@ == mode_alias(*self),
    {
        match self {
            InputMode::Normal => "normal",
            InputMode::Locked => "locked",
            InputMode::Resize => "resize",
            InputMode::Pane => "pane",
            InputMode::Tab => "tab",
            InputMode::Scroll => "scroll",
            InputMode::EnterSearch => "entersearch",
            InputMode::Search => "search",
            InputMode::RenameTab => "renametab",
            InputMode::RenamePane => "renamepane",
            InputMode::Session => "session",
            InputMode::Move => "move",
            InputMode::Prompt => "prompt",
            InputMode::Tmux => "tmux",
        }
    }

    /// Parses a canonical mode name. Matching is exact and case-sensitive:
    /// the lowercase names are accepted and every other string is rejected
    /// with an error that carries it.
    pub fn from_str(s: &str) -> (r: Result<InputMode, UnknownInputMode>)
        ensures
            match r {
                Ok(m) => mode_of_alias(s@) == Some(m) && mode_alias(m) == s@,
                Err(e) => mode_of_alias(s@).is_none() && e.input@ == s@,
            },
    {
        let modes = [
            InputMode::Normal,
            InputMode::Resize,
            InputMode::Locked,
            InputMode::Pane,
            InputMode::Tab,
            InputMode::Scroll,
            InputMode::Search,
            InputMode::EnterSearch,
            InputMode::RenameTab,
            InputMode::Session,
            InputMode::Move,
            InputMode::Tmux,
            InputMode::Prompt,
            InputMode::RenamePane,
        ];
        let mut i: usize = 0;
        while i < 14
            invariant
                i <= 14,
                forall|j: int| 0 <= j < i ==> mode_alias(#[trigger] modes@[j]) != s@,
            decreases 14 - i,
        {
            let m = modes[i];
            if str_eq(m.alias(), s) {
                proof {
                    law_mode_alias_round_trip(m);
                }
                return Ok(m);
            }
            i += 1;
        }
        proof {
            assert forall|m: InputMode| mode_alias(m) != s@ by {
                match m {
                    InputMode::Normal => assert(modes@[0] == m),
                    InputMode::Resize => assert(modes@[1] == m),
                    InputMode::Locked => assert(modes@[2] == m),
                    InputMode::Pane => assert(modes@[3] == m),
                    InputMode::Tab => assert(modes@[4] == m),
                    InputMode::Scroll => assert(modes@[5] == m),
                    InputMode::Search => assert(modes@[6] == m),
                    InputMode::EnterSearch => assert(modes@[7] == m),
                    InputMode::RenameTab => assert(modes@[8] == m),
                    InputMode::Session => assert(modes@[9] == m),
                    InputMode::Move => assert(modes@[10] == m),
                    InputMode::Tmux => assert(modes@[11] == m),
                    InputMode::Prompt => assert(modes@[12] == m),
                    InputMode::RenamePane => assert(modes@[13] == m),
                }
            }
        }
        Err(UnknownInputMode { input: s.to_owned() })
    }
}

impl std::str::FromStr for InputMode {
    type Err = UnknownInputMode;

    fn from_str(s: &str) -> Result<InputMode, UnknownInputMode> {
        InputMode::from_str(s)
    }
}

/// An action bound to a key. The host decides what an action does; this
/// library only stores actions and hands them back, so it carries each one as
/// the host's code for it.
#[derive(Clone, Copy, Debug, PartialEq, Eq, Structural, Hash)]
pub struct Action {
    pub code: u32,
}

/// The keybindings of every mode: a list of (mode, bindings) pairs, each
/// binding a key with the actions it triggers. Kept as a list so that the
/// order of entries is stable.
pub type KeybindsVec = Vec<(InputMode, Vec<(Key, Vec<Action>)>)>;

/// The bindings of one mode, as values.
pub open spec fn bindings_view(b: Seq<(Key, Vec<Action>)>) -> Seq<(Key, Seq<Action>)> {
    b.map_values(|p: (Key, Vec<Action>)| (p.0, p.1@))
}

/// The bindings of the first entry for `mode`, or none if no entry is for it.
pub open spec fn first_bindings(
    kb: Seq<(InputMode, Vec<(Key, Vec<Action>)>)>,
    mode: InputMode,
) -> Seq<(Key, Seq<Action>)>
    decreases kb.len(),
{
    if kb.len() == 0 {
        Seq::empty()
    } else if kb[0].0 == mode {
        bindings_view(kb[0].1@)
    } else {
        first_bindings(kb.drop_first(), mode)
    }
}

/// A lookup finds the bindings of the first entry for the mode, whatever
/// entries for the same mode follow it.
pub proof fn law_first_entry_wins(
    kb: Seq<(InputMode, Vec<(Key, Vec<Action>)>)>,
    mode: InputMode,
    i: int,
)
    requires
        0 <= i < kb.len(),
        kb[i].0 == mode,
        forall|j: int| 0 <= j < i ==> kb[j].0 != mode,
    ensures
        first_bindings(kb, mode) == bindings_view(kb[i].1@),
    decreases i,
{
    if i > 0 {
        assert(kb[0].0 != mode);
        let rest = kb.drop_first();
        assert forall|j: int| 0 <= j < i - 1 implies rest[j].0 != mode by {
            assert(rest[j] == kb[j + 1]);
        }
        law_first_entry_wins(rest, mode, i - 1);
    }
}

/// A lookup for a mode that no entry is for finds no bindings.
pub proof fn law_absent_mode_is_empty(kb: Seq<(InputMode, Vec<(Key, Vec<Action>)>)>, mode: InputMode)
    requires
        forall|j: int| 0 <= j < kb.len() ==> kb[j].0 != mode,
    ensures
        first_bindings(kb, mode) == Seq::<(Key, Seq<Action>)>::empty(),
    decreases kb.len(),
{
    if kb.len() > 0 {
        let rest = kb.drop_first();
        assert forall|j: int| 0 <= j < rest.len() implies rest[j].0 != mode by {
            assert(rest[j] == kb[j + 1]);
        }
        law_absent_mode_is_empty(rest, mode);
    }
}

fn copy_actions(a: &Vec<Action>) -> (r: Vec<Action>)
    ensures
        r@ == a@,
{
    let mut r: Vec<Action> = Vec::new();
    let mut i: usize = 0;
    while i < a.len()
        invariant
            i <= a.len(),
            r@ == a@.subrange(0, i as int),
        decreases a.len() - i,
    {
        r.push(a[i]);
        i += 1;
        assert(r@ =~= a@.subrange(0, i as int));
    }
    assert(a@.subrange(0, a.len() as int) =~= a@);
    r
}

fn copy_bindings(b: &Vec<(Key, Vec<Action>)>) -> (r: Vec<(Key, Vec<Action>)>)
    ensures
        bindings_view(r@) == bindings_view(b@),
{
    let mut r: Vec<(Key, Vec<Action>)> = Vec::new();
    let mut i: usize = 0;
    while i < b.len()
        invariant
            i <= b.len(),
            r@.len() == i,
            forall|j: int| 0 <= j < i ==> (#[trigger] r@[j]).0 == b@[j].0 && r@[j].1@ == b@[j].1@,
        decreases b.len() - i,
    {
        let entry = &b[i];
        let actions = copy_actions(&entry.1);
        r.push((entry.0, actions));
        i += 1;
    }
    assert(bindings_view(r@) =~= bindings_view(b@));
    r
}

/// Which optional glyphs a plugin may draw.
#[derive(Clone, Copy, Debug, PartialEq, Eq, Structural, Hash)]
pub struct PluginCapabilities {
    pub arrow_fonts: bool,
}

impl Default for PluginCapabilities {
    fn default() -> (r: PluginCapabilities)
        ensures
            r == (PluginCapabilities { arrow_fonts: true }),
    {
        PluginCapabilities { arrow_fonts: true }
    }
}

/// The current input mode together with the keybindings of every mode, as
/// shown in a status bar.
#[derive(Clone, Debug, PartialEq, Eq)]
pub struct ModeInfo {
    pub mode: InputMode,
    pub keybinds: KeybindsVec,
    pub style: Style,
    pub capabilities: PluginCapabilities,
    pub session_name: Option<String>,
}

impl Default for ModeInfo {
    fn default() -> (r: ModeInfo)
        ensures
            r.mode == InputMode::Normal,
            r.keybinds@ == Seq::<(InputMode, Vec<(Key, Vec<Action>)>)>::empty(),
            r.style == (Style { colors: default_palette(), rounded_corners: false }),
            r.capabilities == (PluginCapabilities { arrow_fonts: true }),
            r.session_name.is_none(),
    {
        ModeInfo {
            mode: InputMode::default(),
            keybinds: Vec::new(),
            style: Style::default(),
            capabilities: PluginCapabilities::default(),
            session_name: None,
        }
    }
}

impl ModeInfo {
    /// The bindings of the current mode.
    pub fn get_mode_keybinds(&self) -> (r: Vec<(Key, Vec<Action>)>)
        ensures
            bindings_view(r@) == first_bindings(self.keybinds@, self.mode),
            r@.len() == first_bindings(self.keybinds@, self.mode).len(),
    {
        self.get_keybinds_for_mode(self.mode)
    }

    /// A copy of the bindings of the first entry for `mode`; empty if no
    /// entry is for it.
    pub fn get_keybinds_for_mode(&self, mode: InputMode) -> (r: Vec<(Key, Vec<Action>)>)
        ensures
            bindings_view(r@) == first_bindings(self.keybinds@, mode),
            r@.len() == first_bindings(self.keybinds@, mode).len(),
    {
        let kb = &self.keybinds;
        let mut i: usize = 0;
        assert(kb@.subrange(0, kb@.len() as int) =~= kb@);
        while i < kb.len()
            invariant
                kb@ == self.keybinds@,
                i <= kb.len(),
                first_bindings(kb@, mode) == first_bindings(kb@.subrange(i as int, kb@.len() as int), mode),
            decreases kb.len() - i,
        {
            let ghost rest = kb@.subrange(i as int, kb@.len() as int);
            assert(rest[0] == kb@[i as int]);
            if kb[i].0 == mode {
                assert(first_bindings(rest, mode) == bindings_view(kb@[i as int].1@));
                return copy_bindings(&kb[i].1);
            }
            assert(rest.drop_first() =~= kb@.subrange(i + 1, kb@.len() as int));
            i += 1;
        }
        Vec::new()
    }
}

} // verus!
