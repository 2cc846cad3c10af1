use vstd::prelude::*;
use crate::midi::{Message, Note, NoteEvent};

verus! {

/// The note number that a tracker state holds sounding, if any.
pub open spec fn sounding_key(current: Option<Note>) -> Option<u8> {
    match current {
        Some(c) => Some(c.number() as u8),
        None => None,
    }
}

/// The state after one pitch estimate: a dead note releases, a continuation
/// keeps the sounding note (with its original amplitude), anything else
/// becomes the new sounding note.
pub open spec fn next_state(current: Option<Note>, note: Note) -> Option<Note> {
    if note.dead() {
        None
    } else {
        match current {
            Some(c) => if c.continued_by(note) {
                Some(c)
            } else {
                Some(note)
            },
            None => Some(note),
        }
    }
}

/// The messages sent for one pitch estimate.
pub open spec fn emitted(current: Option<Note>, note: Note) -> Seq<Message> {
    if note.dead() {
        match current {
            Some(c) => seq![Message { event: NoteEvent::NoteOff, key: c.number() as u8 }],
            None => seq![],
        }
    } else {
        match current {
            Some(c) => if c.continued_by(note) {
                seq![]
            } else {
                seq![
                    Message { event: NoteEvent::NoteOff, key: c.number() as u8 },
                    Message { event: NoteEvent::NoteOn, key: note.number() as u8 },
                ]
            },
            None => seq![Message { event: NoteEvent::NoteOn, key: note.number() as u8 }],
        }
    }
}

/// The messages that silence the tracker: a NoteOff for the sounding note.
pub open spec fn released(current: Option<Note>) -> Seq<Message> {
    match current {
        Some(c) => seq![Message { event: NoteEvent::NoteOff, key: c.number() as u8 }],
        None => seq![],
    }
}

/// The state after a sequence of pitch estimates.
pub open spec fn run_state(current: Option<Note>, notes: Seq<Note>) -> Option<Note>
    decreases notes.len(),
{
    if notes.len() == 0 {
        current
    } else {
        next_state(run_state(current, notes.drop_last()), notes.last())
    }
}

/// Everything sent for a sequence of pitch estimates, in order.
pub open spec fn run_output(current: Option<Note>, notes: Seq<Note>) -> Seq<Message>
    decreases notes.len(),
{
    if notes.len() == 0 {
        seq![]
    } else {
        run_output(current, notes.drop_last()) + emitted(
            run_state(current, notes.drop_last()),
            notes.last(),
        )
    }
}

/// What a receiver hears after one message, starting from the note it holds
/// sounding: a NoteOn is well-formed only when nothing sounds, a NoteOff only
/// for the note that sounds. `None` marks an ill-formed stream.
pub open spec fn hear(sounding: Option<u8>, m: Message) -> Option<Option<u8>> {
    match (m.event, sounding) {
        (NoteEvent::NoteOn, None) => Some(Some(m.key)),
        (NoteEvent::NoteOff, Some(k)) => if k == m.key {
            Some(None)
        } else {
            None
        },
        _ => None,
    }
}

/// What a receiver holds sounding after a stream of messages, or `None` where
/// the stream is ill-formed: a NoteOn while a note sounds (two notes at once,
/// or a NoteOn left without its NoteOff), or a NoteOff for a note not sounding.
pub open spec fn replay(sounding: Option<u8>, msgs: Seq<Message>) -> Option<Option<u8>>
    decreases msgs.len(),
{
    if msgs.len() == 0 {
        Some(sounding)
    } else {
        match replay(sounding, msgs.drop_last()) {
            Some(s) => hear(s, msgs.last()),
            None => None,
        }
    }
}

/// Replaying two streams one after the other is replaying their concatenation.
pub proof fn lemma_replay_append(s: Option<u8>, a: Seq<Message>, b: Seq<Message>)
    ensures
        replay(s, a + b) == (match replay(s, a) {
            Some(t) => replay(t, b),
            None => None,
        }),
    decreases b.len(),
{
    if b.len() == 0 {
        assert(a + b =~= a);
    } else {
        assert((a + b).drop_last() =~= a + b.drop_last());
        assert((a + b).last() == b.last());
        lemma_replay_append(s, a, b.drop_last());
    }
}

/// One step of the tracker sends a well-formed stream that leaves the receiver
/// holding exactly the note the tracker holds.
pub proof fn lemma_step_well_formed(current: Option<Note>, note: Note)
    ensures
        replay(sounding_key(current), emitted(current, note)) == Some(
            sounding_key(next_state(current, note)),
        ),
{
    let s = sounding_key(current);
    let e = emitted(current, note);
    if e.len() == 2 {
        assert(e.drop_last().drop_last() =~= Seq::<Message>::empty());
        assert(replay(s, e.drop_last().drop_last()) == Some(s));
        assert(replay(s, e.drop_last()) == hear(s, e[0]));
        assert(replay(s, e) == hear(hear(s, e[0]).unwrap(), e[1]));
    } else if e.len() == 1 {
        assert(e.drop_last() =~= Seq::<Message>::empty());
        assert(replay(s, e.drop_last()) == Some(s));
        assert(replay(s, e) == hear(s, e[0]));
    } else {
        assert(replay(s, e) == Some(s));
    }
}

/// Pairing of NoteOn and NoteOff: for any sequence of pitch estimates fed to a
/// tracker in any state, the messages sent form a well-formed stream. Each
/// NoteOn comes while nothing sounds, so every NoteOn is followed by exactly
/// one NoteOff for the same note number before the next NoteOn, and at most
/// one note sounds at any time; the note left sounding is the one the tracker
/// holds.
pub proof fn law_output_well_formed(current: Option<Note>, notes: Seq<Note>)
    ensures
        replay(sounding_key(current), run_output(current, notes)) == Some(
            sounding_key(run_state(current, notes)),
        ),
    decreases notes.len(),
{
    if notes.len() > 0 {
        let prev = notes.drop_last();
        law_output_well_formed(current, prev);
        lemma_replay_append(
            sounding_key(current),
            run_output(current, prev),
            emitted(run_state(current, prev), notes.last()),
        );
        lemma_step_well_formed(run_state(current, prev), notes.last());
    }
}

/// Every NoteOn is matched: a tracker started idle and released at the end
/// has sent a well-formed stream that leaves nothing sounding.
pub proof fn law_release_silences(notes: Seq<Note>)
    ensures
        replay(None, run_output(None, notes) + released(run_state(None, notes))) == Some(
            None::<u8>,
        ),
{
    law_output_well_formed(None, notes);
    let st = run_state(None, notes);
    lemma_replay_append(None, run_output(None, notes), released(st));
    let r = released(st);
    if st is Some {
        assert(r.drop_last() =~= Seq::<Message>::empty());
        assert(replay(sounding_key(st), r.drop_last()) == Some(sounding_key(st)));
        assert(replay(sounding_key(st), r) == hear(sounding_key(st), r[0]));
    } else {
        assert(replay(None, r) == Some(None::<u8>));
    }
}

/// Hysteresis: of two consecutive live estimates of the same note number, the
/// second no louder than the first, the second sends nothing and changes
/// nothing; the note sounding after both is that note number. Started idle,
/// the first sends exactly one NoteOn.
pub proof fn law_repeat_holds(current: Option<Note>, a: Note, b: Note)
    requires
        !a.dead(),
        !b.dead(),
        a.number() == b.number(),
        b.amp <= a.amp,
    ensures
        emitted(next_state(current, a), b) == Seq::<Message>::empty(),
        next_state(next_state(current, a), b) == next_state(current, a),
        sounding_key(next_state(current, a)) == Some(a.number() as u8),
        current is None ==> emitted(current, a) == seq![
            Message { event: NoteEvent::NoteOn, key: a.number() as u8 },
        ],
{
    assert(emitted(next_state(current, a), b) =~= Seq::<Message>::empty());
}

/// A dead estimate sends nothing to an idle tracker and exactly one NoteOff,
/// for the sounding note, to a playing one; either way the tracker ends idle.
pub proof fn law_dead_releases(current: Option<Note>, note: Note)
    requires
        note.dead(),
    ensures
        next_state(current, note) is None,
        current is None ==> emitted(current, note).len() == 0,
        current is Some ==> emitted(current, note) == seq![
            Message { event: NoteEvent::NoteOff, key: current.unwrap().number() as u8 },
        ],
{
}

/// The note tracker: at most one note sounds, and it is the note last
/// announced by a NoteOn that no NoteOff has yet followed.
pub struct Tracker {
    pub current: Option<Note>,
}

impl Tracker {
    pub fn new() -> (r: Tracker)
        ensures
            r.current is None,
    {
        Tracker { current: None }
    }

    /// The note number sounding now, if any.
    pub fn playing(&self) -> (r: Option<u8>)
        ensures
            r == sounding_key(self.current),
    {
        match self.current {
            Some(c) => Some(c.key()),
            None => None,
        }
    }

    /// Takes one pitch estimate and returns the messages to send, in order.
    pub fn step(&mut self, note: Note) -> (r: Vec<Message>)
        ensures
            final(self).current == next_state(old(self).current, note),
            r@ == emitted(old(self).current, note),
    {
        let mut out: Vec<Message> = Vec::new();
        if note.is_dead() {
            if let Some(c) = self.current {
                out.push(Message::note_off(c.key()));
                self.current = None;
            }
            assert(out@ =~= emitted(old(self).current, note));
            return out;
        }
        match self.current {
            Some(c) => {
                if c.is_same(&note) {
                    assert(out@ =~= emitted(old(self).current, note));
                    return out;
                }
                out.push(Message::note_off(c.key()));
                out.push(Message::note_on(note.key()));
            },
            None => {
                out.push(Message::note_on(note.key()));
            },
        }
        self.current = Some(note);
        assert(out@ =~= emitted(old(self).current, note));
        out
    }

    /// Silences the tracker: returns the NoteOff for the sounding note, if any.
    pub fn release(&mut self) -> (r: Vec<Message>)
        ensures
            final(self).current is None,
            r@ == released(old(self).current),
    {
        let mut out: Vec<Message> = Vec::new();
        if let Some(c) = self.current {
            out.push(Message::note_off(c.key()));
        }
        self.current = None;
        assert(out@ =~= released(old(self).current));
        out
    }
}

} // verus!
