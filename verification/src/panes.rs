//! The panes of the practice dashboard and the components they can show,
//! with the small integers under which both are stored and exchanged.

use vstd::prelude::*;

verus! {

/// One of the four panes of the dashboard.
#[derive(Clone, Copy, Debug, PartialEq, Eq, Structural)]
pub enum PaneId {
    TopLeft,
    TopRight,
    BottomLeft,
    BottomRight,
}

/// What a pane shows.
#[derive(Clone, Copy, Debug, PartialEq, Eq, Structural)]
pub enum ComponentKind {
    Empty,
    Metronome,
    ChordSheet,
    VideoPanel,
    Fretboard,
    Keys,
    Scales,
}

impl PaneId {
    /// The number of a pane: `0` top left, `1` top right, `2` bottom left,
    /// `3` bottom right.
    pub open spec fn index(self) -> int {
        match self {
            PaneId::TopLeft => 0,
            PaneId::TopRight => 1,
            PaneId::BottomLeft => 2,
            PaneId::BottomRight => 3,
        }
    }

    /// The pane of a number; any number outside `0..=3` names the top left
    /// pane.
    pub open spec fn of_index(i: int) -> PaneId {
        if i == 1 {
            PaneId::TopRight
        } else if i == 2 {
            PaneId::BottomLeft
        } else if i == 3 {
            PaneId::BottomRight
        } else {
            PaneId::TopLeft
        }
    }

    /// The number of this pane.
    pub fn to_int(self) -> (i: i32)
        ensures
            i as int == self.index(),
    {
        match self {
            PaneId::TopLeft => 0,
            PaneId::TopRight => 1,
            PaneId::BottomLeft => 2,
            PaneId::BottomRight => 3,
        }
    }
}

impl ComponentKind {
    /// The number under which a component kind is stored: `0` for an empty
    /// pane, then `1` to `6`.
    pub open spec fn tag(self) -> int {
        match self {
            ComponentKind::Empty => 0,
            ComponentKind::Metronome => 1,
            ComponentKind::ChordSheet => 2,
            ComponentKind::VideoPanel => 3,
            ComponentKind::Fretboard => 4,
            ComponentKind::Keys => 5,
            ComponentKind::Scales => 6,
        }
    }

    /// The component kind stored under a number; any number outside `1..=6`
    /// stands for an empty pane.
    pub open spec fn of_tag(tag: int) -> ComponentKind {
        if tag == 1 {
            ComponentKind::Metronome
        } else if tag == 2 {
            ComponentKind::ChordSheet
        } else if tag == 3 {
            ComponentKind::VideoPanel
        } else if tag == 4 {
            ComponentKind::Fretboard
        } else if tag == 5 {
            ComponentKind::Keys
        } else if tag == 6 {
            ComponentKind::Scales
        } else {
            ComponentKind::Empty
        }
    }

    /// The title shown above a pane with this component; empty for an empty
    /// pane.
    pub open spec fn label(self) -> Seq<char> {
        match self {
            ComponentKind::Empty => ""@,
            ComponentKind::Metronome => "Metronome"@,
            ComponentKind::ChordSheet => "Chord Sheet"@,
            ComponentKind::VideoPanel => "Video Panel"@,
            ComponentKind::Fretboard => "Fretboard"@,
            ComponentKind::Keys => "Keys"@,
            ComponentKind::Scales => "Scales"@,
        }
    }

    /// The component kind stored under `tag`.
    pub fn from_tag(tag: i32) -> (kind: ComponentKind)
        ensures
            kind == ComponentKind::of_tag(tag as int),
    {
        match tag {
            1 => ComponentKind::Metronome,
            2 => ComponentKind::ChordSheet,
            3 => ComponentKind::VideoPanel,
            4 => ComponentKind::Fretboard,
            5 => ComponentKind::Keys,
            6 => ComponentKind::Scales,
            _ => ComponentKind::Empty,
        }
    }

    /// The title shown above a pane with this component.
    pub fn title(self) -> (text: &'static str)
        ensures
            text@ == self.label(),
    {
        match self {
            ComponentKind::Empty => "",
            ComponentKind::Metronome => "Metronome",
            ComponentKind::ChordSheet => "Chord Sheet",
            ComponentKind::VideoPanel => "Video Panel",
            ComponentKind::Fretboard => "Fretboard",
            ComponentKind::Keys => "Keys",
            ComponentKind::Scales => "Scales",
        }
    }
}

/// The number under which `kind` is stored.
pub fn kind_to_tag(kind: ComponentKind) -> (tag: i32)
    ensures
        tag as int == kind.tag(),
{
    match kind {
        ComponentKind::Empty => 0,
        ComponentKind::Metronome => 1,
        ComponentKind::ChordSheet => 2,
        ComponentKind::VideoPanel => 3,
        ComponentKind::Fretboard => 4,
        ComponentKind::Keys => 5,
        ComponentKind::Scales => 6,
    }
}

/// The pane named by `i`.
pub fn pane_id_from(i: i32) -> (pane: PaneId)
    ensures
        pane == PaneId::of_index(i as int),
{
    match i {
        0 => PaneId::TopLeft,
        1 => PaneId::TopRight,
        2 => PaneId::BottomLeft,
        3 => PaneId::BottomRight,
        _ => PaneId::TopLeft,
    }
}

/// The title of the component stored under `kind_tag`.
pub fn title_for(kind_tag: i32) -> (text: &'static str)
    ensures
        text@ == ComponentKind::of_tag(kind_tag as int).label(),
{
    ComponentKind::from_tag(kind_tag).title()
}

/// The component kinds a pane can be given, each with its title, in the
/// order of their numbers.
pub fn component_names() -> (names: Vec<(ComponentKind, &'static str)>)
    ensures
        names@.len() == 6,
        forall|i: int|
            0 <= i < 6 ==> (#[trigger] names@[i]).0 == ComponentKind::of_tag(i + 1) && names@[i].1@
                == ComponentKind::of_tag(i + 1).label(),
{
    let mut names: Vec<(ComponentKind, &'static str)> = Vec::new();
    let mut tag: i32 = 1;
    while tag <= 6
        invariant
            1 <= tag <= 7,
            names@.len() == tag - 1,
            forall|i: int|
                0 <= i < tag - 1 ==> (#[trigger] names@[i]).0 == ComponentKind::of_tag(i + 1)
                    && names@[i].1@ == ComponentKind::of_tag(i + 1).label(),
        decreases 7 - tag,
    {
        let kind = ComponentKind::from_tag(tag);
        names.push((kind, kind.title()));
        tag += 1;
    }
    names
}

/// What each of the four panes shows, as stored numbers.
#[derive(Clone, Copy, Debug, PartialEq, Eq, Structural)]
pub struct Layout {
    pub tl_kind: i32,
    pub tr_kind: i32,
    pub bl_kind: i32,
    pub br_kind: i32,
}

impl Layout {
    /// The stored number of the component in `pane`.
    pub open spec fn kind_in(self, pane: PaneId) -> int {
        match pane {
            PaneId::TopLeft => self.tl_kind as int,
            PaneId::TopRight => self.tr_kind as int,
            PaneId::BottomLeft => self.bl_kind as int,
            PaneId::BottomRight => self.br_kind as int,
        }
    }

    /// The layout with four empty panes.
    pub fn empty() -> (layout: Layout)
        ensures
            forall|pane: PaneId| layout.kind_in(pane) == 0,
    {
        Layout { tl_kind: 0, tr_kind: 0, bl_kind: 0, br_kind: 0 }
    }

    /// The stored number of the component in `pane`.
    pub fn kind_tag(&self, pane: PaneId) -> (tag: i32)
        ensures
            tag as int == self.kind_in(pane),
    {
        match pane {
            PaneId::TopLeft => self.tl_kind,
            PaneId::TopRight => self.tr_kind,
            PaneId::BottomLeft => self.bl_kind,
            PaneId::BottomRight => self.br_kind,
        }
    }

    /// The title above `pane`.
    pub fn title(&self, pane: PaneId) -> (text: &'static str)
        ensures
            text@ == ComponentKind::of_tag(self.kind_in(pane)).label(),
    {
        title_for(self.kind_tag(pane))
    }

    /// Puts a component into `pane`; the other panes keep theirs.
    pub fn apply_component(&mut self, pane: PaneId, kind: ComponentKind)
        ensures
            final(self).kind_in(pane) == kind.tag(),
            forall|other: PaneId| other != pane ==> final(self).kind_in(other) == old(self).kind_in(other),
    {
        let tag = kind_to_tag(kind);
        match pane {
            PaneId::TopLeft => {
                self.tl_kind = tag;
            },
            PaneId::TopRight => {
                self.tr_kind = tag;
            },
            PaneId::BottomLeft => {
                self.bl_kind = tag;
            },
            PaneId::BottomRight => {
                self.br_kind = tag;
            },
        }
    }
}

/// A component kind survives being stored and read back, and a pane its
/// numbering.
pub proof fn lemma_tags_round_trip(kind: ComponentKind, pane: PaneId)
    ensures
        0 <= kind.tag() <= 6,
        ComponentKind::of_tag(kind.tag()) == kind,
        0 <= pane.index() <= 3,
        PaneId::of_index(pane.index()) == pane,
{
}

} // verus!
