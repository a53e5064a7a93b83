use vstd::prelude::*;
use crate::display::DisplayState;
use crate::frame::read_frame;
use crate::frame::spec_frame_lines;
use crate::frame::FrameEvent;
use crate::interpret::interpret_line;
use crate::interpret::spec_interpret_line;

verus! {

/// The display states a sequence of decoded lines calls for: the
/// interpretation of each line that parses, in order; a line that does not
/// parse contributes nothing.
pub open spec fn spec_line_states(lines: Seq<Seq<char>>) -> Seq<DisplayState>
    decreases lines.len(),
{
    if lines.len() == 0 {
        Seq::empty()
    } else {
        let rest = spec_line_states(lines.drop_last());
        match spec_interpret_line(lines.last()) {
            Option::None => rest,
            Option::Some(s) => rest.push(s),
        }
    }
}

/// Runs one frame buffer through the whole pipeline: a zero-byte frame
/// yields nothing (the empty-stream signal, to which the driver reacts by
/// re-announcing itself as a subscriber); any other frame yields the display
/// states its parsable lines call for, in order, every one well-formed.
pub fn frame_states(bytes: &Vec<u8>) -> (r: Option<Vec<DisplayState>>)
    ensures
        r is Some <==> bytes@.len() > 0,
        r matches Some(states) ==> states@ == spec_line_states(spec_frame_lines(bytes@)),
        r matches Some(states) ==> forall|j: int| 0 <= j < states@.len() ==> states@[j].wf(),
{
    let lines = match read_frame(bytes) {
        FrameEvent::EmptyStream => {
            return None;
        },
        FrameEvent::Records(lines) => lines,
    };
    let ghost lv = spec_frame_lines(bytes@);
    let mut states: Vec<DisplayState> = Vec::new();
    let mut k: usize = 0;
    while k < lines.len()
        invariant
            k <= lines@.len(),
            lines@.len() == lv.len(),
            forall|j: int| 0 <= j < lines@.len() ==> lines@[j]@ == lv[j],
            states@ == spec_line_states(lv.take(k as int)),
            forall|j: int| 0 <= j < states@.len() ==> states@[j].wf(),
        decreases lines@.len() - k,
    {
        proof {
            assert(lv.take(k + 1 as int).drop_last() =~= lv.take(k as int));
            assert(lv.take(k + 1 as int).last() == lv[k as int]);
        }
        match interpret_line(lines[k].as_str()) {
            None => {
            },
            Some(s) => {
                states.push(s);
            },
        }
        k = k + 1;
    }
    proof {
        assert(lv.take(k as int) =~= lv);
    }
    Some(states)
}

} // verus!
