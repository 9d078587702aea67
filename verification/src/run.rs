//! The bookkeeping of one sequential pass over a manifest.
//!
//! A `Run` holds the manifest's lines and how far the pass has come. The
//! caller's loop asks `next_address` for the address to fetch, performs the
//! single fetch (the one thing this library cannot do itself), and hands the
//! outcome to `record`. The contracts pin the pass down: the addresses come
//! out one per manifest line, in file order, and recording an outcome —
//! success or failure alike — advances the run by exactly one line, so a
//! failed fetch never stops the lines after it.

use vstd::prelude::*;

verus! {

use crate::manifest::manifest_lines;
use crate::manifest::spec_lines;
use crate::schema::strs_view;

/// One pass over a manifest: the lines, and how many have been processed.
pub struct Run {
    /// The manifest's lines, fixed at the start.
    pub lines: Vec<Vec<char>>,
    /// How many lines have been fetched and recorded, successes and
    /// failures together.
    pub done: usize,
    /// How many recorded fetches decoded successfully.
    pub ok_count: usize,
    /// How many recorded fetches failed.
    pub err_count: usize,
}

impl Run {
    /// The bookkeeping is consistent: no more lines processed than exist,
    /// and every processed line counted exactly once.
    pub open spec fn wf(&self) -> bool {
        self.done <= self.lines@.len() && self.ok_count + self.err_count == self.done
    }

    /// Start a pass over a manifest text: its lines, none processed yet, so
    /// no fetch has happened when the run begins.
    pub fn start(text: &[char]) -> (r: Run)
        ensures
            r.wf(),
            strs_view(r.lines) == spec_lines(text@),
            r.done == 0,
            r.ok_count == 0,
            r.err_count == 0,
    {
        Run { lines: manifest_lines(text), done: 0, ok_count: 0, err_count: 0 }
    }

    /// The address to fetch next: exactly the next unprocessed manifest
    /// line, in file order; nothing once every line is processed.
    pub fn next_address(&self) -> (r: Option<&Vec<char>>)
        requires
            self.wf(),
        ensures
            match r {
                Some(a) => self.done < self.lines@.len() && a@ == strs_view(
                    self.lines,
                )[self.done as int],
                None => self.done == self.lines@.len(),
            },
    {
        if self.done < self.lines.len() {
            Some(&self.lines[self.done])
        } else {
            None
        }
    }

    /// Record the outcome of the current line's fetch. The run advances by
    /// exactly one line whether the fetch succeeded or failed: a bad line is
    /// skipped, never repeated, and never halts the lines after it.
    pub fn record(&mut self, succeeded: bool)
        requires
            old(self).wf(),
            old(self).done < old(self).lines@.len(),
        ensures
            final(self).wf(),
            final(self).lines == old(self).lines,
            final(self).done == old(self).done + 1,
            final(self).ok_count == old(self).ok_count + (if succeeded {
                1int
            } else {
                0int
            }),
            final(self).err_count == old(self).err_count + (if succeeded {
                0int
            } else {
                1int
            }),
    {
        let total = self.lines.len();
        proof {
            assert(old(self).ok_count <= old(self).done < total);
            assert(old(self).err_count <= old(self).done < total);
        }
        self.done = self.done + 1;
        if succeeded {
            self.ok_count = self.ok_count + 1;
        } else {
            self.err_count = self.err_count + 1;
        }
    }

    /// Whether every manifest line has been processed.
    pub fn finished(&self) -> (r: bool)
        ensures
            r == (self.done == self.lines@.len()),
    {
        self.done == self.lines.len()
    }
}

} // verus!
