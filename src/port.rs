//! Which MIDI output port a session plays on.

use vstd::prelude::*;

use crate::text::same_text;

verus! {

/// The port among those with ids `ids` that a session plays on: the first
/// with id `wanted` where one is asked for, else the last one. `None` where
/// there is no such port.
pub fn choose_port(ids: &Vec<String>, wanted: &Option<String>) -> (r: Option<usize>)
    ensures
        match wanted {
            Some(w) => match r {
                Some(i) => i < ids@.len() && ids@[i as int]@ == w@ && forall|j: int|
                    0 <= j < i ==> #[trigger] ids@[j]@ != w@,
                None => forall|j: int| 0 <= j < ids@.len() ==> #[trigger] ids@[j]@ != w@,
            },
            None => if ids@.len() == 0 {
                r is None
            } else {
                r == Some((ids@.len() - 1) as usize)
            },
        },
{
    match wanted {
        Some(w) => {
            let mut i: usize = 0;
            while i < ids.len()
                invariant
                    i <= ids@.len(),
                    *wanted == Some(*w),
                    forall|j: int| 0 <= j < i ==> #[trigger] ids@[j]@ != w@,
                decreases ids@.len() - i,
            {
                let id = ids[i].as_str();
                if same_text(id, w.as_str()) {
                    return Some(i);
                }
                i = i + 1;
            }
            None
        },
        None => {
            if ids.len() == 0 {
                None
            } else {
                Some(ids.len() - 1)
            }
        },
    }
}

} // verus!
