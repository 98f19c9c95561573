use vstd::prelude::*;

verus! {

/// A keyboard event that edits the text of a text annotation.
#[derive(Debug)]
pub enum TextEvent {
    /// Characters typed by the user.
    Insert(String),
    /// The backspace key was pressed.
    Backspace,
    /// The enter key was pressed.
    Enter,
}

/// The mathematical value of a [`TextEvent`].
pub enum TextEventModel {
    Insert(Seq<char>),
    Backspace,
    Enter,
}

impl View for TextEvent {
    type V = TextEventModel;

    open spec fn view(&self) -> TextEventModel {
        match self {
            TextEvent::Insert(s) => TextEventModel::Insert(s@),
            TextEvent::Backspace => TextEventModel::Backspace,
            TextEvent::Enter => TextEventModel::Enter,
        }
    }
}

/// The text with its last character removed, or the text itself when it is empty.
pub open spec fn without_last(text: Seq<char>) -> Seq<char> {
    if text.len() > 0 { text.drop_last() } else { text }
}

/// What one event does to a text: typing appends, backspace removes the last
/// character, enter leaves the text as it is.
pub open spec fn edit_once(text: Seq<char>, e: TextEventModel) -> Seq<char> {
    match e {
        TextEventModel::Insert(s) => text + s,
        TextEventModel::Backspace => without_last(text),
        TextEventModel::Enter => text,
    }
}

/// The text after the events, applied first to last.
pub open spec fn edit_text(text: Seq<char>, events: Seq<TextEventModel>) -> Seq<char>
    decreases events.len(),
{
    if events.len() == 0 {
        text
    } else {
        edit_once(edit_text(text, events.drop_last()), events.last())
    }
}

/// Whether one of the events is the enter key.
pub open spec fn has_enter(events: Seq<TextEventModel>) -> bool {
    exists|i: int| 0 <= i < events.len() && #[trigger] events[i] matches TextEventModel::Enter
}

/// Removes the last character of `text`, as `String::pop` does.
#[verifier::external_body]
fn pop_char(text: &mut String)
    ensures
        final(text)@ == without_last(old(text)@),
{
    text.pop();
}

/// Applies the events to `text`, first to last, and tells whether one of them
/// was the enter key.
pub fn apply_text_events(text: &mut String, events: &Vec<TextEvent>) -> (finished: bool)
    ensures
        final(text)@ == edit_text(old(text)@, events@.map_values(|e: TextEvent| e@)),
        finished == has_enter(events@.map_values(|e: TextEvent| e@)),
{
    let ghost evs = events@.map_values(|e: TextEvent| e@);
    let ghost start = text@;
    let mut finished = false;
    let mut i: usize = 0;
    while i < events.len()
        invariant
            i <= events.len(),
            evs == events@.map_values(|e: TextEvent| e@),
            text@ == edit_text(start, evs.take(i as int)),
            finished == (exists|j: int| 0 <= j < i && #[trigger] evs[j] matches TextEventModel::Enter),
        decreases events.len() - i,
    {
        assert(evs.take(i + 1).drop_last() =~= evs.take(i as int));
        match &events[i] {
            TextEvent::Insert(s) => {
                text.append(s.as_str());
            },
            TextEvent::Backspace => {
                pop_char(text);
            },
            TextEvent::Enter => {
                finished = true;
            },
        }
        i = i + 1;
    }
    assert(evs.take(i as int) =~= evs);
    finished
}

/// Typing a string and then pressing backspace once per typed character gives
/// back the text as it was.
pub proof fn law_backspace_undoes_typing(text: Seq<char>, typed: Seq<char>)
    ensures
        edit_text(
            text,
            seq![TextEventModel::Insert(typed)] + Seq::new(typed.len(), |i: int| TextEventModel::Backspace),
        ) == text,
{
    lemma_backspaces(text, typed, typed.len());
    assert((seq![TextEventModel::Insert(typed)] + Seq::new(typed.len(), |i: int| TextEventModel::Backspace))
        =~= backspace_events(typed, typed.len()));
}

spec fn backspace_events(typed: Seq<char>, k: nat) -> Seq<TextEventModel> {
    seq![TextEventModel::Insert(typed)] + Seq::new(k, |i: int| TextEventModel::Backspace)
}

proof fn lemma_backspaces(text: Seq<char>, typed: Seq<char>, k: nat)
    requires
        k <= typed.len(),
    ensures
        edit_text(text, backspace_events(typed, k)) =~= text + typed.take(typed.len() - k),
    decreases k,
{
    let evs = backspace_events(typed, k);
    if k == 0 {
        assert(evs.drop_last() =~= Seq::<TextEventModel>::empty());
        assert(edit_text(text, evs.drop_last()) == text);
        assert(typed.take(typed.len() as int) =~= typed);
    } else {
        lemma_backspaces(text, typed, (k - 1) as nat);
        assert(evs.drop_last() =~= backspace_events(typed, (k - 1) as nat));
        let before = text + typed.take(typed.len() - (k - 1));
        assert(before.drop_last() =~= text + typed.take(typed.len() - k));
        assert(evs.last() == TextEventModel::Backspace);
    }
}

/// Typing appends the typed characters, backspace removes the last character
/// (if there is one), enter leaves the text as it is; a run of events edits
/// the text one event after the other.
pub proof fn law_text_events(text: Seq<char>, typed: Seq<char>, a: Seq<TextEventModel>, b: Seq<TextEventModel>)
    ensures
        edit_text(text, seq![TextEventModel::Insert(typed)]) == text + typed,
        text.len() > 0 ==> edit_text(text, seq![TextEventModel::Backspace]) == text.subrange(0, text.len() - 1),
        text.len() == 0 ==> edit_text(text, seq![TextEventModel::Backspace]) == text,
        edit_text(text, seq![TextEventModel::Enter]) == text,
        edit_text(text, a + b) == edit_text(edit_text(text, a), b),
        has_enter(a + b) <==> (has_enter(a) || has_enter(b)),
        has_enter(seq![TextEventModel::Enter]),
        !has_enter(seq![TextEventModel::Insert(typed), TextEventModel::Backspace]),
{
    let one_i = seq![TextEventModel::Insert(typed)];
    assert(one_i.drop_last() =~= Seq::<TextEventModel>::empty());
    assert(edit_text(text, one_i.drop_last()) == text);
    let one_b = seq![TextEventModel::Backspace];
    assert(one_b.drop_last() =~= Seq::<TextEventModel>::empty());
    assert(edit_text(text, one_b.drop_last()) == text);
    let one_e = seq![TextEventModel::Enter];
    assert(one_e.drop_last() =~= Seq::<TextEventModel>::empty());
    assert(edit_text(text, one_e.drop_last()) == text);
    assert(one_e[0] matches TextEventModel::Enter);
    lemma_edit_text_append(text, a, b);
    if has_enter(a + b) {
        let i = choose|i: int| 0 <= i < (a + b).len() && #[trigger] (a + b)[i] matches TextEventModel::Enter;
        if i < a.len() {
            assert(a[i] == (a + b)[i]);
        } else {
            assert(b[i - a.len()] == (a + b)[i]);
        }
    }
    if has_enter(a) {
        let i = choose|i: int| 0 <= i < a.len() && #[trigger] a[i] matches TextEventModel::Enter;
        assert((a + b)[i] == a[i]);
    }
    if has_enter(b) {
        let i = choose|i: int| 0 <= i < b.len() && #[trigger] b[i] matches TextEventModel::Enter;
        assert((a + b)[a.len() + i] == b[i]);
    }
    let two = seq![TextEventModel::Insert(typed), TextEventModel::Backspace];
    assert(!(two[0] matches TextEventModel::Enter) && !(two[1] matches TextEventModel::Enter));
}

proof fn lemma_edit_text_append(text: Seq<char>, a: Seq<TextEventModel>, b: Seq<TextEventModel>)
    ensures
        edit_text(text, a + b) == edit_text(edit_text(text, a), b),
    decreases b.len(),
{
    if b.len() == 0 {
        assert(a + b =~= a);
    } else {
        lemma_edit_text_append(text, a, b.drop_last());
        assert((a + b).drop_last() =~= a + b.drop_last());
        assert((a + b).last() == b.last());
    }
}

} // verus!
