//! The list of servers behind the dashboard, and what its buttons do to it.

use vstd::prelude::*;

verus! {

/// One server as the dashboard shows it.
#[derive(Debug, Clone, Copy, PartialEq, Eq, Structural)]
pub struct Server {
    pub id: i32,
    pub load: i32,
}

/// What the dashboard's buttons ask for.
#[derive(Debug, Clone, Copy, PartialEq, Eq, Structural)]
pub enum Msg {
    /// Add a server to the end of the list.
    AddServer,
    /// Remove every server with this id.
    RemoveServer(i32),
}

/// The dashboard's list of servers.
pub struct Model {
    servers: Vec<Server>,
}

/// The id of a server added to a list of `count` servers: `count`, cut to
/// the 32 bits of an `i32`.
pub open spec fn next_id(count: nat) -> i32 {
    count as i32
}

/// The servers of `servers` whose id is not `id`, in their order.
pub open spec fn without_id(servers: Seq<Server>, id: i32) -> Seq<Server> {
    servers.filter(|server: Server| server.id != id)
}

impl View for Model {
    type V = Seq<Server>;

    closed spec fn view(&self) -> Seq<Server> {
        self.servers@
    }
}

impl Model {
    /// The dashboard with no server.
    pub fn create() -> (model: Model)
        ensures
            model@ == Seq::<Server>::empty(),
    {
        Model { servers: Vec::new() }
    }

    /// The servers, in the order in which they are shown.
    pub fn servers(&self) -> (servers: &Vec<Server>)
        ensures
            servers@ == self@,
    {
        &self.servers
    }

    /// Does what `msg` asks for, and says whether the dashboard is to be
    /// drawn again: it always is.
    ///
    /// A server that is added has no load, and the number of servers before
    /// it as its id.
    pub fn update(&mut self, msg: Msg) -> (redraw: bool)
        ensures
            redraw,
            match msg {
                Msg::AddServer => final(self)@ == old(self)@.push(
                    Server { id: next_id(old(self)@.len()), load: 0 },
                ),
                Msg::RemoveServer(id) => final(self)@ == without_id(old(self)@, id),
            },
    {
        match msg {
            Msg::AddServer => {
                let count: usize = self.servers.len();
                let id: i32 = #[verifier::truncate] (count as i32);
                self.servers.push(Server { id, load: 0 });
            },
            Msg::RemoveServer(id) => {
                let mut kept: Vec<Server> = Vec::new();
                let mut i: usize = 0;
                while i < self.servers.len()
                    invariant
                        i <= self.servers.len(),
                        kept@ == without_id(self.servers@.take(i as int), id),
                    decreases self.servers.len() - i,
                {
                    let server: Server = self.servers[i];
                    proof {
                        reveal(Seq::filter);
                        assert(self.servers@.take(i + 1).drop_last() =~= self.servers@.take(
                            i as int,
                        ));
                    }
                    if server.id != id {
                        kept.push(server);
                    }
                    i += 1;
                }
                proof {
                    reveal(Seq::filter);
                    assert(self.servers@.take(i as int) =~= self.servers@);
                }
                self.servers = kept;
            },
        }
        true
    }
}

} // verus!
