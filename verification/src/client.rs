use vstd::prelude::*;

use crate::window::Window;

verus! {

/// The depth of each completion queue: the smaller of the adapter's limits
/// on completion-queue depth and on receive-queue depth.
pub open spec fn spec_queue_depth(max_completion_queue_depth: u32, max_receive_queue_depth: u32) -> u32 {
    if max_completion_queue_depth <= max_receive_queue_depth {
        max_completion_queue_depth
    } else {
        max_receive_queue_depth
    }
}

/// What a connection for one window is set up with: its index, cut to a
/// byte, and the window's title.
#[derive(Clone, Debug, PartialEq, Eq)]
pub struct ConnectionSetup {
    pub index: u8,
    pub title: String,
}

/// The connections that one run sets up for `windows`, in order: the one for
/// the window at position `i` has index `i` modulo 256 and that window's title.
pub open spec fn connection_plan<const N: usize>(windows: Seq<Window<N>>) -> Seq<ConnectionSetup> {
    Seq::new(
        windows.len(),
        |i: int| ConnectionSetup { index: (i % 256) as u8, title: windows[i].title },
    )
}

/// The client's bookkeeping: the depth of its completion queues and the
/// connections it has set up so far, in the order they were set up.
pub struct Client {
    queue_depth: u32,
    connections: Vec<ConnectionSetup>,
}

impl Client {
    pub closed spec fn spec_depth(&self) -> u32 {
        self.queue_depth
    }

    pub closed spec fn spec_connections(&self) -> Seq<ConnectionSetup> {
        self.connections@
    }

    /// A client for an adapter that reports the given queue-depth limits: its
    /// completion queues get the smaller of the two, and it has no connection.
    pub fn new(max_completion_queue_depth: u32, max_receive_queue_depth: u32) -> (c: Self)
        ensures
            c.spec_depth() == spec_queue_depth(max_completion_queue_depth, max_receive_queue_depth),
            c.spec_depth() <= max_completion_queue_depth,
            c.spec_depth() <= max_receive_queue_depth,
            c.spec_depth() == max_completion_queue_depth || c.spec_depth() == max_receive_queue_depth,
            c.spec_connections() == Seq::<ConnectionSetup>::empty(),
    {
        let queue_depth = if max_completion_queue_depth <= max_receive_queue_depth {
            max_completion_queue_depth
        } else {
            max_receive_queue_depth
        };
        Client { queue_depth, connections: Vec::new() }
    }

    /// Sets up one connection per window, appended after the existing ones,
    /// and names the connection that is then connected: the first of all,
    /// `Some(0)`, or `None` when the client has no connection at all.
    pub fn run<const N: usize>(&mut self, window_list: Vec<Window<N>>) -> (target: Option<usize>)
        ensures
            final(self).spec_depth() == old(self).spec_depth(),
            final(self).spec_connections() == old(self).spec_connections() + connection_plan(
                window_list@,
            ),
            final(self).spec_connections().len() == old(self).spec_connections().len()
                + window_list@.len(),
            forall|i: int|
                0 <= i < old(self).spec_connections().len()
                    ==> #[trigger] final(self).spec_connections()[i] == old(self).spec_connections()[i],
            forall|i: int|
                0 <= i < window_list@.len()
                    ==> (#[trigger] final(self).spec_connections()[old(self).spec_connections().len() + i]).index
                    == i % 256,
            forall|i: int|
                0 <= i < window_list@.len()
                    ==> (#[trigger] final(self).spec_connections()[old(self).spec_connections().len() + i]).title
                    == window_list@[i].title,
            target == (if final(self).spec_connections().len() > 0 {
                Some(0usize)
            } else {
                None::<usize>
            }),
    {
        let ghost before = self.connections@;
        let n = window_list.len();
        let mut index: usize = 0;
        while index < n
            invariant
                n == window_list@.len(),
                index <= n,
                self.queue_depth == old(self).spec_depth(),
                self.connections@ == before + connection_plan(window_list@).take(index as int),
            decreases n - index,
        {
            let setup = ConnectionSetup {
                index: (index % 256) as u8,
                title: window_list[index].title.clone(),
            };
            self.connections.push(setup);
            index = index + 1;
            assert(connection_plan(window_list@).take(index as int) =~= connection_plan(
                window_list@,
            ).take(index - 1).push(setup));
        }
        assert(connection_plan(window_list@).take(n as int) =~= connection_plan(window_list@));
        if self.connections.len() > 0 {
            Some(0)
        } else {
            None
        }
    }

    /// The depth of the client's completion queues.
    pub fn queue_depth(&self) -> (d: u32)
        ensures
            d == self.spec_depth(),
    {
        self.queue_depth
    }

    /// The connections set up so far, in order.
    pub fn connections(&self) -> (s: &[ConnectionSetup])
        ensures
            s@ == self.spec_connections(),
    {
        self.connections.as_slice()
    }
}

/// Law: the completion-queue depth fits both of the adapter's limits and is
/// one of them.
pub proof fn lemma_queue_depth_fits(max_completion_queue_depth: u32, max_receive_queue_depth: u32)
    ensures
        spec_queue_depth(max_completion_queue_depth, max_receive_queue_depth)
            <= max_completion_queue_depth,
        spec_queue_depth(max_completion_queue_depth, max_receive_queue_depth)
            <= max_receive_queue_depth,
        spec_queue_depth(max_completion_queue_depth, max_receive_queue_depth)
            == max_completion_queue_depth || spec_queue_depth(
            max_completion_queue_depth,
            max_receive_queue_depth,
        ) == max_receive_queue_depth,
{
}

/// Law: in the plan of a run, the window at position `i` gets index `i`
/// modulo 256 (its own position, cut to a byte) and its own title, in order.
pub proof fn lemma_plan_index_is_position<const N: usize>(windows: Seq<Window<N>>)
    ensures
        connection_plan(windows).len() == windows.len(),
        forall|i: int|
            0 <= i < windows.len() ==> (#[trigger] connection_plan(windows)[i]).index == i % 256
                && connection_plan(windows)[i].title == windows[i].title,
        forall|i: int|
            0 <= i < windows.len() && windows.len() <= 256 ==> (#[trigger] connection_plan(
                windows,
            )[i]).index == i,
{
}

/// Law: one run over at most 256 windows gives its connections pairwise
/// different indices, so their request contexts tell them apart; each
/// connection carries the title of its own window.
pub proof fn lemma_plan_indices_distinct<const N: usize>(windows: Seq<Window<N>>)
    requires
        windows.len() <= 256,
    ensures
        connection_plan(windows).len() == windows.len(),
        forall|i: int, j: int|
            0 <= i < j < windows.len() ==> #[trigger] connection_plan(windows)[i].index
                != #[trigger] connection_plan(windows)[j].index,
        forall|i: int|
            0 <= i < windows.len() ==> #[trigger] connection_plan(windows)[i].title
                == windows[i].title,
{
}

} // verus!
