//! The buffers of the editor and the views onto them.

use crate::buffer::{line_spec, Buffer, BufferName, BufferViewName};
use crate::text::split_spec;
use crate::buffer_view::BufferView;
use vstd::prelude::*;

verus! {

/// What the editor's state can be told.
#[derive(Clone, Copy, Debug, PartialEq, Eq, Structural)]
pub enum StateMessage {
    InsertChar(char),
}

/// The buffers of the editor by name, the views onto them by name, and the
/// name of the view in use.
pub struct State {
    active_view: BufferViewName,
    buffers: Vec<(BufferName, Buffer)>,
    views: Vec<(BufferViewName, BufferView)>,
}

/// The name under which a new state holds its one buffer and its one view.
pub open spec fn default_name() -> Seq<char> {
    "default"@
}

impl State {
    /// The names of the buffers, in the order in which they were added.
    pub closed spec fn buffer_names(&self) -> Seq<Seq<char>> {
        Seq::new(self.buffers@.len(), |i: int| self.buffers@[i].0@)
    }

    /// The buffers, in the order of their names.
    pub closed spec fn buffer_values(&self) -> Seq<Buffer> {
        Seq::new(self.buffers@.len(), |i: int| self.buffers@[i].1)
    }

    /// The names of the views, in the order in which they were added.
    pub closed spec fn view_names(&self) -> Seq<Seq<char>> {
        Seq::new(self.views@.len(), |i: int| self.views@[i].0@)
    }

    /// The name of the buffer that each view shows, in the order of the
    /// views' names.
    pub closed spec fn view_buffers(&self) -> Seq<Seq<char>> {
        Seq::new(self.views@.len(), |i: int| self.views@[i].1.buffer@)
    }

    /// The first line that each view shows, in the order of the views'
    /// names.
    pub closed spec fn view_top_lines(&self) -> Seq<u32> {
        Seq::new(self.views@.len(), |i: int| self.views@[i].1.top_line)
    }

    /// The name of the view in use.
    pub closed spec fn active_view(&self) -> Seq<char> {
        self.active_view@
    }

    /// Whether no buffer name and no view name is held twice.
    pub open spec fn well_formed(&self) -> bool {
        &&& self.buffer_names().no_duplicates()
        &&& self.view_names().no_duplicates()
        &&& self.buffer_names().len() == self.buffer_values().len()
        &&& self.view_names().len() == self.view_buffers().len()
        &&& self.view_names().len() == self.view_top_lines().len()
    }

    /// The buffer that the view in use shows: the one named by that view,
    /// where there is such a view and such a buffer.
    pub open spec fn active_buffer(&self) -> Option<Buffer> {
        if self.view_names().contains(self.active_view()) {
            let shown = self.view_buffers()[self.view_names().index_of(self.active_view())];
            if self.buffer_names().contains(shown) {
                Some(self.buffer_values()[self.buffer_names().index_of(shown)])
            } else {
                None
            }
        } else {
            None
        }
    }

    /// The state of a new editor: one empty buffer, one view onto it from its
    /// first line, both named `default`, and that view in use.
    pub fn initial() -> (state: State)
        ensures
            state.well_formed(),
            state.buffer_names() == seq![default_name()],
            state.view_names() == seq![default_name()],
            state.view_buffers() == seq![default_name()],
            state.view_top_lines() == seq![0u32],
            state.active_view() == default_name(),
            state.buffer_values()[0].lines@.len() == 1,
            state.buffer_values()[0].lines@[0]@ == line_spec(Seq::empty()),
            state.buffer_values()[0].cursors@.len() == 0,
    {
        let default_buffer_name = BufferName::new("default");
        let default_view_name = BufferViewName::new("default");
        let default_buffer = Buffer::from_string("");
        let default_buffer_view = BufferView::create(default_buffer_name.clone());
        let mut initial_buffers: Vec<(BufferName, Buffer)> = Vec::new();
        initial_buffers.push((default_buffer_name, default_buffer));
        let mut initial_views: Vec<(BufferViewName, BufferView)> = Vec::new();
        initial_views.push((default_view_name.clone(), default_buffer_view));
        let state = State {
            active_view: default_view_name,
            buffers: initial_buffers,
            views: initial_views,
        };
        proof {
            reveal_strlit("");
            assert(state.buffer_names() =~= seq![default_name()]);
            assert(state.view_names() =~= seq![default_name()]);
            assert(state.view_buffers() =~= seq![default_name()]);
            assert(state.view_top_lines() =~= seq![0u32]);
            assert(split_spec(""@, '\n') =~= seq![Seq::<char>::empty()]);
            assert(""@ =~= Seq::<char>::empty());
        }
        state
    }

    fn find_buffer(&self, name: &BufferName) -> (found: Option<usize>)
        ensures
            match found {
                Some(i) => i < self.buffer_names().len() && self.buffer_names()[i as int]
                    == name@,
                None => !self.buffer_names().contains(name@),
            },
    {
        let mut i: usize = 0;
        while i < self.buffers.len()
            invariant
                i <= self.buffers.len(),
                forall|j: int| 0 <= j < i ==> self.buffer_names()[j] != name@,
            decreases self.buffers.len() - i,
        {
            if self.buffers[i].0.same(name) {
                return Some(i);
            }
            i = i + 1;
        }
        None
    }

    fn find_view(&self, name: &BufferViewName) -> (found: Option<usize>)
        ensures
            match found {
                Some(i) => i < self.view_names().len() && self.view_names()[i as int] == name@,
                None => !self.view_names().contains(name@),
            },
    {
        let mut i: usize = 0;
        while i < self.views.len()
            invariant
                i <= self.views.len(),
                forall|j: int| 0 <= j < i ==> self.view_names()[j] != name@,
            decreases self.views.len() - i,
        {
            if self.views[i].0.same(name) {
                return Some(i);
            }
            i = i + 1;
        }
        None
    }

    /// Holds a buffer under a name. A buffer held under that name before is
    /// replaced; otherwise the buffer is added behind the others. The views
    /// stay as they are.
    pub fn add_buffer(&mut self, name: BufferName, new_buffer: Buffer)
        requires
            old(self).well_formed(),
        ensures
            final(self).well_formed(),
            final(self).view_names() == old(self).view_names(),
            final(self).view_buffers() == old(self).view_buffers(),
            final(self).view_top_lines() == old(self).view_top_lines(),
            final(self).active_view() == old(self).active_view(),
            if old(self).buffer_names().contains(name@) {
                &&& final(self).buffer_names() == old(self).buffer_names()
                &&& final(self).buffer_values() == old(self).buffer_values().update(
                    old(self).buffer_names().index_of(name@),
                    new_buffer,
                )
            } else {
                &&& final(self).buffer_names() == old(self).buffer_names().push(name@)
                &&& final(self).buffer_values() == old(self).buffer_values().push(new_buffer)
            },
    {
        match self.find_buffer(&name) {
            Some(i) => {
                proof {
                    let names = self.buffer_names();
                    let k = names.index_of(name@);
                    assert(names[k] == name@);
                    assert(k == i);
                }
                self.buffers.set(i, (name, new_buffer));
                assert(self.buffer_names() =~= old(self).buffer_names());
                assert(self.buffer_values() =~= old(self).buffer_values().update(
                    i as int,
                    new_buffer,
                ));
            },
            None => {
                self.buffers.push((name, new_buffer));
                assert(self.buffer_names() =~= old(self).buffer_names().push(name@));
                assert(self.buffer_values() =~= old(self).buffer_values().push(new_buffer));
                assert forall|a: int, b: int|
                    0 <= a < self.buffer_names().len() && 0 <= b < self.buffer_names().len() && a
                        != b implies self.buffer_names()[a] != self.buffer_names()[b] by {
                    if a < old(self).buffer_names().len() {
                        assert(old(self).buffer_names().contains(old(self).buffer_names()[a]));
                    }
                    if b < old(self).buffer_names().len() {
                        assert(old(self).buffer_names().contains(old(self).buffer_names()[b]));
                    }
                }
            },
        }
    }

    /// The buffer that the view in use shows.
    pub fn borrow_active_buffer(&self) -> (buffer: Option<&Buffer>)
        requires
            self.well_formed(),
        ensures
            match buffer {
                Some(buffer) => self.active_buffer() == Some(*buffer),
                None => self.active_buffer().is_none(),
            },
    {
        match self.find_view(&self.active_view) {
            Some(v) => {
                proof {
                    let names = self.view_names();
                    let k = names.index_of(self.active_view());
                    assert(names[v as int] == self.active_view());
                    assert(names.contains(self.active_view()));
                    assert(names[k] == self.active_view());
                    assert(k == v);
                }
                match self.find_buffer(&self.views[v].1.buffer) {
                    Some(b) => {
                        proof {
                            let names = self.buffer_names();
                            let shown = self.view_buffers()[v as int];
                            let k = names.index_of(shown);
                            assert(names[b as int] == shown);
                            assert(names.contains(shown));
                            assert(names[k] == shown);
                            assert(k == b);
                        }
                        Some(&self.buffers[b].1)
                    },
                    None => None,
                }
            },
            None => None,
        }
    }
}

} // verus!
