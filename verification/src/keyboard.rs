//! The editor's keyboard shortcuts.
//!
//! Delete or Backspace removes the selected region, node, note or keyframe;
//! Command+S saves everything; Space plays or pauses; the right and left
//! arrows seek to the end and the start of the export range.
use vstd::prelude::*;

verus! {

/// The keys pressed this frame, as the UI reports them.
#[derive(Clone, Copy, Debug, PartialEq, Eq, Structural)]
pub struct KeyInput {
    /// Another widget (a text field) has the keyboard focus.
    pub wants_keyboard_input: bool,
    pub delete: bool,
    pub backspace: bool,
    /// S pressed with the command modifier.
    pub save: bool,
    pub space: bool,
    pub arrow_right: bool,
    pub arrow_left: bool,
}

/// What is selected in the editor. `T`, `R`, `N` and `K` are the types of
/// track, region, node and note identifiers; a keyframe is named by its
/// automation node and its index.
#[derive(Clone, Copy, Debug, PartialEq, Eq)]
pub enum Selection<T, R, N, K> {
    Nothing,
    Track(T),
    Region(T, R),
    Node(T, N),
    Note(T, R, K),
    Keyframe(T, N, usize),
}

/// The removal that Delete or Backspace asks for.
#[derive(Clone, Copy, Debug, PartialEq, Eq)]
pub enum RemoveAction<T, R, N, K> {
    RemoveRegion(T, R),
    RemoveNode(T, N),
    RemoveNote(T, R, K),
    RemoveKeyframe(T, N, usize),
}

/// The removal of the selected region, node, note or keyframe; nothing is
/// removed when a track or nothing is selected.
pub open spec fn removal_spec<T, R, N, K>(selection: Selection<T, R, N, K>) -> Option<RemoveAction<T, R, N, K>> {
    match selection {
        Selection::Region(t, r) => Some(RemoveAction::RemoveRegion(t, r)),
        Selection::Node(t, n) => Some(RemoveAction::RemoveNode(t, n)),
        Selection::Note(t, r, k) => Some(RemoveAction::RemoveNote(t, r, k)),
        Selection::Keyframe(t, n, i) => Some(RemoveAction::RemoveKeyframe(t, n, i)),
        _ => None,
    }
}

/// The removal that deleting `selection` asks for.
pub fn removal_for<T: Copy, R: Copy, N: Copy, K: Copy>(selection: &Selection<T, R, N, K>) -> (removal: Option<RemoveAction<T, R, N, K>>)
    ensures
        removal == removal_spec(*selection),
{
    match selection {
        Selection::Region(t, r) => Some(RemoveAction::RemoveRegion(*t, *r)),
        Selection::Node(t, n) => Some(RemoveAction::RemoveNode(*t, *n)),
        Selection::Note(t, r, k) => Some(RemoveAction::RemoveNote(*t, *r, *k)),
        Selection::Keyframe(t, n, i) => Some(RemoveAction::RemoveKeyframe(*t, *n, *i)),
        Selection::Nothing => None,
        Selection::Track(_) => None,
    }
}

/// What a shortcut asks the editor to do.
#[derive(Clone, Copy, Debug, PartialEq, Eq)]
pub enum KeyCommand<T, R, N, K> {
    /// Remove the selected region, node, note or keyframe.
    Remove(RemoveAction<T, R, N, K>),
    SaveAll,
    Play,
    Pause,
    /// Seek to the end of the export range.
    SeekToEnd,
    /// Seek to the start of the export range.
    SeekToStart,
}

/// `seq![c]` when `cond` holds, nothing otherwise.
pub open spec fn when<T, R, N, K>(cond: bool, c: KeyCommand<T, R, N, K>) -> Seq<KeyCommand<T, R, N, K>> {
    if cond {
        seq![c]
    } else {
        Seq::empty()
    }
}

/// The removal queued by Delete or Backspace, if any.
pub open spec fn delete_commands<T, R, N, K>(input: KeyInput, selection: Selection<T, R, N, K>) -> Seq<KeyCommand<T, R, N, K>> {
    if input.delete || input.backspace {
        match removal_spec(selection) {
            Some(a) => seq![KeyCommand::Remove(a)],
            None => Seq::empty(),
        }
    } else {
        Seq::empty()
    }
}

/// The commands of the pressed keys, in the order the editor queues them.
pub open spec fn keyboard_commands_spec<T, R, N, K>(
    input: KeyInput,
    selection: Selection<T, R, N, K>,
    is_playing: bool,
) -> Seq<KeyCommand<T, R, N, K>> {
    if input.wants_keyboard_input {
        Seq::empty()
    } else {
        delete_commands(input, selection) + when(input.save, KeyCommand::SaveAll) + when(
            input.space && !is_playing,
            KeyCommand::Play,
        ) + when(input.space && is_playing, KeyCommand::Pause) + when(input.arrow_right, KeyCommand::SeekToEnd)
            + when(input.arrow_left, KeyCommand::SeekToStart)
    }
}

/// The commands that the keys pressed this frame ask for, in order, given
/// the selection and whether playback runs.
pub fn keyboard_commands<T: Copy, R: Copy, N: Copy, K: Copy>(
    input: KeyInput,
    selection: &Selection<T, R, N, K>,
    is_playing: bool,
) -> (commands: Vec<KeyCommand<T, R, N, K>>)
    ensures
        commands@ == keyboard_commands_spec(input, *selection, is_playing),
{
    let mut commands: Vec<KeyCommand<T, R, N, K>> = Vec::new();
    if input.wants_keyboard_input {
        return commands;
    }
    if input.delete || input.backspace {
        if let Some(removal) = removal_for(selection) {
            commands.push(KeyCommand::Remove(removal));
        }
    }
    if input.save {
        commands.push(KeyCommand::SaveAll);
    }
    if input.space {
        if is_playing {
            commands.push(KeyCommand::Pause);
        } else {
            commands.push(KeyCommand::Play);
        }
    }
    if input.arrow_right {
        commands.push(KeyCommand::SeekToEnd);
    }
    if input.arrow_left {
        commands.push(KeyCommand::SeekToStart);
    }
    assert(commands@ =~= keyboard_commands_spec(input, *selection, is_playing));
    commands
}

/// Space toggles playback: it asks to pause when playing and to play when
/// stopped, never both, and nothing happens while a text field has focus.
pub proof fn lemma_space_toggles<T, R, N, K>(input: KeyInput, selection: Selection<T, R, N, K>, is_playing: bool)
    requires
        input.space,
        !input.wants_keyboard_input,
    ensures
        keyboard_commands_spec(input, selection, is_playing).contains(KeyCommand::<T, R, N, K>::Play) == !is_playing,
        keyboard_commands_spec(input, selection, is_playing).contains(KeyCommand::<T, R, N, K>::Pause) == is_playing,
{
    let s = keyboard_commands_spec(input, selection, is_playing);
    let a = delete_commands(input, selection);
    let b = when(input.save, KeyCommand::<T, R, N, K>::SaveAll);
    let c = when(!is_playing, KeyCommand::<T, R, N, K>::Play);
    let d = when(is_playing, KeyCommand::<T, R, N, K>::Pause);
    let e = when(input.arrow_right, KeyCommand::<T, R, N, K>::SeekToEnd);
    let f = when(input.arrow_left, KeyCommand::<T, R, N, K>::SeekToStart);
    assert(s == a + b + c + d + e + f);
    if is_playing {
        assert(s[(a.len() + b.len()) as int] == KeyCommand::<T, R, N, K>::Pause);
        assert forall|i: int| 0 <= i < s.len() implies s[i] != KeyCommand::<T, R, N, K>::Play by {
            if i < a.len() {
                assert(s[i] == a[i]);
            } else if i < a.len() + b.len() {
                assert(s[i] == b[i - a.len()]);
            } else if i == a.len() + b.len() {
            } else if i < a.len() + b.len() + 1 + e.len() {
                assert(s[i] == e[i - a.len() - b.len() - 1]);
            } else {
                assert(s[i] == f[i - a.len() - b.len() - 1 - e.len()]);
            }
        }
    } else {
        assert(s[(a.len() + b.len()) as int] == KeyCommand::<T, R, N, K>::Play);
        assert forall|i: int| 0 <= i < s.len() implies s[i] != KeyCommand::<T, R, N, K>::Pause by {
            if i < a.len() {
                assert(s[i] == a[i]);
            } else if i < a.len() + b.len() {
                assert(s[i] == b[i - a.len()]);
            } else if i == a.len() + b.len() {
            } else if i < a.len() + b.len() + 1 + e.len() {
                assert(s[i] == e[i - a.len() - b.len() - 1]);
            } else {
                assert(s[i] == f[i - a.len() - b.len() - 1 - e.len()]);
            }
        }
    }
}

/// A command is in a concatenation exactly when it is in one of the parts.
proof fn lemma_concat_contains<X>(a: Seq<X>, b: Seq<X>, x: X)
    ensures
        (a + b).contains(x) == (a.contains(x) || b.contains(x)),
{
    let s = a + b;
    if s.contains(x) {
        let i = choose|i: int| 0 <= i < s.len() && s[i] == x;
        if i < a.len() {
            assert(a[i] == x);
        } else {
            assert(b[i - a.len()] == x);
        }
    }
    if a.contains(x) {
        let i = choose|i: int| 0 <= i < a.len() && a[i] == x;
        assert(s[i] == x);
    }
    if b.contains(x) {
        let i = choose|i: int| 0 <= i < b.len() && b[i] == x;
        assert(s[i + a.len()] == x);
    }
}

/// Whether a command is a removal.
pub open spec fn is_removal<T, R, N, K>(c: KeyCommand<T, R, N, K>) -> bool {
    c is Remove
}

/// What the commands of a frame contain, key by key: a command is queued
/// exactly when its key asks for it.
proof fn lemma_commands_contain<T, R, N, K>(
    input: KeyInput,
    selection: Selection<T, R, N, K>,
    is_playing: bool,
    x: KeyCommand<T, R, N, K>,
)
    requires
        !input.wants_keyboard_input,
    ensures
        keyboard_commands_spec(input, selection, is_playing).contains(x) == (delete_commands(input, selection).contains(x)
            || (input.save && x == KeyCommand::<T, R, N, K>::SaveAll) || (input.space && !is_playing && x
            == KeyCommand::<T, R, N, K>::Play) || (input.space && is_playing && x == KeyCommand::<T, R, N, K>::Pause)
            || (input.arrow_right && x == KeyCommand::<T, R, N, K>::SeekToEnd) || (input.arrow_left && x
            == KeyCommand::<T, R, N, K>::SeekToStart)),
        delete_commands(input, selection).contains(x) ==> is_removal(x),
{
    let a = delete_commands(input, selection);
    let b = when(input.save, KeyCommand::<T, R, N, K>::SaveAll);
    let c = when(input.space && !is_playing, KeyCommand::<T, R, N, K>::Play);
    let d = when(input.space && is_playing, KeyCommand::<T, R, N, K>::Pause);
    let e = when(input.arrow_right, KeyCommand::<T, R, N, K>::SeekToEnd);
    let f = when(input.arrow_left, KeyCommand::<T, R, N, K>::SeekToStart);
    lemma_concat_contains(a, b, x);
    lemma_concat_contains(a + b, c, x);
    lemma_concat_contains(a + b + c, d, x);
    lemma_concat_contains(a + b + c + d, e, x);
    lemma_concat_contains(a + b + c + d + e, f, x);
    assert(b.contains(x) == (input.save && x == KeyCommand::<T, R, N, K>::SaveAll)) by {
        if input.save {
            assert(b[0] == KeyCommand::<T, R, N, K>::SaveAll);
        }
    }
    assert(c.contains(x) == (input.space && !is_playing && x == KeyCommand::<T, R, N, K>::Play)) by {
        if input.space && !is_playing {
            assert(c[0] == KeyCommand::<T, R, N, K>::Play);
        }
    }
    assert(d.contains(x) == (input.space && is_playing && x == KeyCommand::<T, R, N, K>::Pause)) by {
        if input.space && is_playing {
            assert(d[0] == KeyCommand::<T, R, N, K>::Pause);
        }
    }
    assert(e.contains(x) == (input.arrow_right && x == KeyCommand::<T, R, N, K>::SeekToEnd)) by {
        if input.arrow_right {
            assert(e[0] == KeyCommand::<T, R, N, K>::SeekToEnd);
        }
    }
    assert(f.contains(x) == (input.arrow_left && x == KeyCommand::<T, R, N, K>::SeekToStart)) by {
        if input.arrow_left {
            assert(f[0] == KeyCommand::<T, R, N, K>::SeekToStart);
        }
    }
    if a.contains(x) {
        let i = choose|i: int| 0 <= i < a.len() && a[i] == x;
        assert(a.len() == 1 && a[0] is Remove);
    }
}

/// The arrow keys seek: with no text field focused, the commands hold a
/// seek to the end of the export range exactly when the right arrow is
/// pressed, and a seek to its start exactly when the left arrow is; while a
/// text field has focus, no command is queued at all.
pub proof fn lemma_arrow_keys_seek<T, R, N, K>(input: KeyInput, selection: Selection<T, R, N, K>, is_playing: bool)
    ensures
        !input.wants_keyboard_input ==> keyboard_commands_spec(input, selection, is_playing).contains(
            KeyCommand::<T, R, N, K>::SeekToEnd,
        ) == input.arrow_right,
        !input.wants_keyboard_input ==> keyboard_commands_spec(input, selection, is_playing).contains(
            KeyCommand::<T, R, N, K>::SeekToStart,
        ) == input.arrow_left,
        input.wants_keyboard_input ==> keyboard_commands_spec(input, selection, is_playing).len() == 0,
{
    if !input.wants_keyboard_input {
        lemma_commands_contain(input, selection, is_playing, KeyCommand::<T, R, N, K>::SeekToEnd);
        lemma_commands_contain(input, selection, is_playing, KeyCommand::<T, R, N, K>::SeekToStart);
    }
}

/// Command+S saves everything: with no text field focused, the commands hold
/// a save exactly when it is pressed.
pub proof fn lemma_save_key<T, R, N, K>(input: KeyInput, selection: Selection<T, R, N, K>, is_playing: bool)
    requires
        !input.wants_keyboard_input,
    ensures
        keyboard_commands_spec(input, selection, is_playing).contains(KeyCommand::<T, R, N, K>::SaveAll) == input.save,
{
    lemma_commands_contain(input, selection, is_playing, KeyCommand::<T, R, N, K>::SaveAll);
}

/// Delete or Backspace removes what is selected: with no text field
/// focused and either key pressed, a selected region, node, note or
/// keyframe is removed under its own identifiers; no removal is queued when
/// neither key is pressed, nor when a track or nothing is selected.
pub proof fn lemma_delete_removes_selection<T, R, N, K>(
    input: KeyInput,
    selection: Selection<T, R, N, K>,
    is_playing: bool,
    x: KeyCommand<T, R, N, K>,
)
    requires
        !input.wants_keyboard_input,
    ensures
        (input.delete || input.backspace) ==> match selection {
            Selection::Region(t, r) => keyboard_commands_spec(input, selection, is_playing).contains(
                KeyCommand::Remove(RemoveAction::RemoveRegion(t, r)),
            ),
            Selection::Node(t, n) => keyboard_commands_spec(input, selection, is_playing).contains(
                KeyCommand::Remove(RemoveAction::RemoveNode(t, n)),
            ),
            Selection::Note(t, r, k) => keyboard_commands_spec(input, selection, is_playing).contains(
                KeyCommand::Remove(RemoveAction::RemoveNote(t, r, k)),
            ),
            Selection::Keyframe(t, n, i) => keyboard_commands_spec(input, selection, is_playing).contains(
                KeyCommand::Remove(RemoveAction::RemoveKeyframe(t, n, i)),
            ),
            _ => true,
        },
        keyboard_commands_spec(input, selection, is_playing).contains(x) && x is Remove ==> (input.delete
            || input.backspace) && !(selection is Nothing) && !(selection is Track),
{
    lemma_commands_contain(input, selection, is_playing, x);
    let a = delete_commands(input, selection);
    if input.delete || input.backspace {
        match removal_spec(selection) {
            Some(r) => {
                lemma_commands_contain(input, selection, is_playing, KeyCommand::Remove(r));
                assert(a[0] == KeyCommand::Remove(r));
            },
            None => {},
        }
    }
}

} // verus!
