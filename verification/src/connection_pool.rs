use vstd::prelude::*;

verus! {

/// Taking the last element of a stack: the element (if any) and what is left.
pub open spec fn pop_last<T>(s: Seq<T>) -> (Option<T>, Seq<T>) {
    if s.len() == 0 {
        (None, s)
    } else {
        (Some(s.last()), s.drop_last())
    }
}

/// What is pushed last is taken first, and the stack is left as it was.
pub proof fn lemma_pop_after_push<T>(s: Seq<T>, x: T)
    ensures
        pop_last(s.push(x)) == (Some(x), s),
{
    assert(s.push(x).drop_last() =~= s);
}

/// The bookkeeping of a pool of connections: the idle connections, used as a
/// stack, and the clients waiting for one, also a stack. `C` is a connection,
/// `W` the handle by which a waiting client is woken.
pub struct RedisConnectionPool<C, W> {
    connections: Vec<C>,
    waiting_clients: Vec<W>,
}

impl<C, W> RedisConnectionPool<C, W> {
    /// The idle connections; the last one is handed out first.
    pub closed spec fn idle(&self) -> Seq<C> {
        self.connections@
    }

    /// The waiting clients; the last one is woken first.
    pub closed spec fn waiting(&self) -> Seq<W> {
        self.waiting_clients@
    }

    /// A pool holding `connections`, in order, and no waiting client.
    pub fn new(connections: Vec<C>) -> (r: Self)
        ensures
            r.idle() == connections@,
            r.waiting() == Seq::<W>::empty(),
    {
        RedisConnectionPool { connections, waiting_clients: Vec::new() }
    }

    /// Hands out the most recently idle connection, if there is one.
    pub fn get_connection(&mut self) -> (r: Option<C>)
        ensures
            (r, final(self).idle()) == pop_last(old(self).idle()),
            final(self).waiting() == old(self).waiting(),
    {
        self.connections.pop()
    }

    /// Registers a client that waits for a connection.
    pub fn add_waiting_client(&mut self, client: W)
        ensures
            final(self).idle() == old(self).idle(),
            final(self).waiting() == old(self).waiting().push(client),
    {
        self.waiting_clients.push(client);
    }

    /// Puts a connection back and hands out the most recently registered
    /// waiting client, if any, to be woken.
    pub fn return_connection(&mut self, connection: C) -> (r: Option<W>)
        ensures
            final(self).idle() == old(self).idle().push(connection),
            (r, final(self).waiting()) == pop_last(old(self).waiting()),
    {
        self.connections.push(connection);
        self.waiting_clients.pop()
    }
}

} // verus!
