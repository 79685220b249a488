//! What holds of every session, proved of the state machine in
//! [`session`](crate::session).

use vstd::prelude::*;
use crate::event::{Event, KeyCode, KeyEvent, KeyEventKind};
use crate::session::{Session, REFERENCE, START_KEY};

verus! {

/// The sentence of a test is not empty, so a test never begins completed.
pub proof fn lemma_reference_is_not_empty()
    ensures
        REFERENCE@.len() == 45,
        !Session::fresh().matched(),
{
    reveal_strlit("The quick brown fox jumped over the lazy dog.");
    assert(Seq::<char>::empty().len() != REFERENCE@.len());
}

/// An event that presses no key, or presses a key that neither quits nor
/// means anything in the current phase, leaves the session to the completion
/// check alone. Unless the typed text already equals the sentence, phase,
/// sentence and typed text all stay as they are.
pub proof fn lemma_unhandled_event_changes_nothing(s: Session, event: Event)
    requires
        event.pressed() matches Some(key) ==> !key.is_quit() && !s.handles(key),
    ensures
        s.step(event) == s.settle(),
        !s.matched() ==> s.step(event) == s,
{
}

/// A key that comes up changes nothing, whichever key it is and whatever the
/// phase: neither handed over alone nor inside an event.
pub proof fn lemma_released_key_changes_nothing(s: Session, key: KeyEvent)
    requires
        key.kind == KeyEventKind::Release,
    ensures
        s.on_key(key) == s,
        s.step(Event::Key(key)) == s.settle(),
        !s.matched() ==> s.step(Event::Key(key)) == s,
{
}

/// Backspace with nothing typed changes nothing.
pub proof fn lemma_backspace_on_empty_changes_nothing(s: Session, event: Event)
    requires
        s is Active,
        s->typed.len() == 0,
        event.pressed() matches Some(key) && key.code is Backspace,
    ensures
        s.step(event) == s.settle(),
        !s.matched() ==> s.step(event) == s,
{
}

/// A quit key ends the session from every phase, and no event after it
/// brings the session back.
pub proof fn lemma_quit_is_absorbing(s: Session, quit: Event, later: Event)
    requires
        quit.pressed() matches Some(key) && key.is_quit(),
    ensures
        s.step(quit) == Session::Terminated,
        s.step(quit).step(later) == Session::Terminated,
{
}

/// The start key, pressed while no test runs, begins a test on the fixed
/// sentence with nothing typed.
pub proof fn lemma_start_resets(s: Session, event: Event)
    requires
        s is Idle || s is Completed,
        event.pressed() matches Some(key) && key.code == KeyCode::Char(START_KEY),
    ensures
        s.step(event) == Session::fresh(),
        s.step(event)->reference == REFERENCE@,
        s.step(event)->typed == Seq::<char>::empty(),
{
    lemma_reference_is_not_empty();
}

/// Typing a character and removing it again leaves the session to the
/// completion check alone, provided the character did not complete the
/// sentence. Unless the typed text equalled the sentence before, the session
/// is back as it was.
pub proof fn lemma_append_then_remove(s: Session, ch: char, typing: Event, erasing: Event)
    requires
        s is Active,
        s->typed.push(ch) != s->reference,
        typing.pressed() matches Some(key) && key.code == KeyCode::Char(ch) && !key.is_quit(),
        erasing.pressed() matches Some(key) && key.code is Backspace,
    ensures
        s.step(typing).step(erasing) == s.settle(),
        !s.matched() ==> s.step(typing).step(erasing) == s,
{
    assert(s->typed.push(ch).drop_last() =~= s->typed);
}

/// An event completes a running test if and only if the typed text, once
/// the event's key is applied, equals the sentence; otherwise the session is
/// what the key made of it.
pub proof fn lemma_completion_is_exact(s: Session, event: Event)
    requires
        s is Active,
    ensures
        s.step(event) is Completed <==> s.on_event(event).matched(),
        !s.on_event(event).matched() ==> s.step(event) == s.on_event(event),
{
}

/// A typed character completes a running test if and only if the typed text
/// with the character added equals the sentence; otherwise the test goes on
/// with the character added.
pub proof fn lemma_typed_character_completes_exactly(s: Session, ch: char, typing: Event)
    requires
        s is Active,
        typing.pressed() matches Some(key) && key.code == KeyCode::Char(ch) && !key.is_quit(),
    ensures
        s.step(typing) is Completed <==> s->typed.push(ch) == s->reference,
        s->typed.push(ch) != s->reference ==> s.step(typing) == s.append(ch),
{
}

/// A typed text that is shorter than the sentence, or differs from it at
/// some position, does not complete the test.
pub proof fn lemma_prefix_or_divergence_stays_active(s: Session)
    requires
        s is Active,
        s->typed.len() < s->reference.len() || exists|i: int|
            0 <= i < s->typed.len() && i < s->reference.len() && s->typed[i] != s->reference[i],
    ensures
        s.settle() == s,
{
}

/// While a test runs, no event changes its sentence, and an event changes
/// the typed text by at most one character at its end.
pub proof fn lemma_episode_keeps_reference(s: Session, event: Event)
    requires
        s is Active,
        s.step(event) is Active,
    ensures
        s.step(event)->reference == s->reference,
        ({
            let before = s->typed;
            let after = s.step(event)->typed;
            ||| after == before
            ||| exists|ch: char| after == before.push(ch)
            ||| before.len() > 0 && after == before.drop_last()
        }),
{
    if let Some(key) = event.pressed() {
        if let KeyCode::Char(ch) = key.code {
            assert(s.step(event)->typed == s->typed.push(ch));
        }
    }
}

} // verus!
