//! Command router: a registry mapping a 16-bit command code to a handler,
//! with synchronous first-match dispatch.

use vstd::prelude::*;

use crate::error::Error;

verus! {

/// Most routes a router can hold; exceeding it is a startup-time
/// configuration error.
pub const MAX_ROUTES: usize = 32;

/// A command handler: a pure function from a command payload to a response
/// payload or a domain error.
///
/// `spec_handle` names the handler's behaviour; `handle` must return exactly
/// that, so dispatch through the router is as predictable as the handler.
pub trait Handler {
    /// What the handler returns on a given payload.
    spec fn spec_handle(&self, payload: Seq<u8>) -> Result<Seq<u8>, Error>;

    /// Handles one command payload.
    fn handle(&self, payload: &[u8]) -> (r: Result<Vec<u8>, Error>)
        ensures
            (match r {
                Ok(v) => self.spec_handle(payload@) == Ok::<Seq<u8>, Error>(v@),
                Err(e) => self.spec_handle(payload@) == Err::<Seq<u8>, Error>(e),
            }),
    ;
}

/// Some route carries the command code.
pub open spec fn spec_has_route<H: Handler>(routes: Seq<(u16, H)>, cmd: u16) -> bool {
    exists|j: int| 0 <= j < routes.len() && (#[trigger] routes[j]).0 == cmd
}

/// What dispatching a command yields: what the first handler registered for
/// the code returns on the data, or `NotFound` when no route carries it.
pub open spec fn spec_route_result<H: Handler>(
    routes: Seq<(u16, H)>,
    cmd: u16,
    data: Seq<u8>,
) -> Result<Seq<u8>, Error>
    decreases routes.len(),
{
    if routes.len() == 0 {
        Err(Error::NotFound)
    } else if routes.first().0 == cmd {
        routes.first().1.spec_handle(data)
    } else {
        spec_route_result(routes.drop_first(), cmd, data)
    }
}

/// Dispatch law: on a command code no route carries, dispatch yields exactly
/// `NotFound` — no handler is consulted.
pub proof fn lemma_unrouted_command_is_not_found<H: Handler>(
    routes: Seq<(u16, H)>,
    cmd: u16,
    data: Seq<u8>,
)
    requires
        !spec_has_route(routes, cmd),
    ensures
        spec_route_result(routes, cmd, data) == Err::<Seq<u8>, Error>(Error::NotFound),
    decreases routes.len(),
{
    if routes.len() > 0 {
        assert(routes[0].0 != cmd);
        assert(forall|j: int|
            0 <= j < routes.drop_first().len() ==> (#[trigger] routes.drop_first()[j])
                == routes[j + 1]);
        lemma_unrouted_command_is_not_found(routes.drop_first(), cmd, data);
    }
}

/// Dropping a first route that does not carry the code keeps route presence.
proof fn lemma_has_route_step<H: Handler>(routes: Seq<(u16, H)>, cmd: u16)
    requires
        routes.len() > 0,
        routes[0].0 != cmd,
    ensures
        spec_has_route(routes, cmd) == spec_has_route(routes.drop_first(), cmd),
{
    if spec_has_route(routes, cmd) {
        let j = choose|j: int| 0 <= j < routes.len() && (#[trigger] routes[j]).0 == cmd;
        assert(routes.drop_first()[j - 1] == routes[j]);
    }
    if spec_has_route(routes.drop_first(), cmd) {
        let j = choose|j: int|
            0 <= j < routes.drop_first().len() && (#[trigger] routes.drop_first()[j]).0 == cmd;
        assert(routes[j + 1] == routes.drop_first()[j]);
    }
}

/// Registry mapping command codes to handlers; insertion order decides among
/// duplicate codes, first registration winning.
pub struct Router<H: Handler> {
    /// The registered routes, in registration order.
    pub routes: Vec<(u16, H)>,
}

impl<H: Handler> Router<H> {
    /// Creates a router with no routes.
    pub fn new() -> (r: Self)
        ensures
            r.routes@ == Seq::<(u16, H)>::empty(),
    {
        Self { routes: Vec::new() }
    }

    /// Registers a handler for a command code.
    ///
    /// The route table's capacity is fixed; registration beyond it is a
    /// startup-time configuration error, excluded here rather than handled.
    pub fn add_route(&mut self, cmd: u16, handler: H)
        requires
            old(self).routes@.len() < MAX_ROUTES,
        ensures
            final(self).routes@ == old(self).routes@.push((cmd, handler)),
    {
        self.routes.push((cmd, handler));
    }

    /// Dispatches a command to the first handler registered for its code.
    ///
    /// The result is exactly [`spec_route_result`]: on an unregistered code
    /// no handler runs and the result is `Err(Error::NotFound)`; otherwise
    /// the result is what the first matching handler returns on `data`.
    pub fn handle_message(&self, cmd: u16, data: &[u8]) -> (r: Result<Vec<u8>, Error>)
        ensures
            (match r {
                Ok(v) => spec_route_result(self.routes@, cmd, data@) == Ok::<Seq<u8>, Error>(v@),
                Err(e) => spec_route_result(self.routes@, cmd, data@) == Err::<Seq<u8>, Error>(e),
            }),
            !spec_has_route(self.routes@, cmd) ==> r == Err::<Vec<u8>, Error>(Error::NotFound),
    {
        proof {
            assert(self.routes@.skip(0) =~= self.routes@);
        }
        let mut i: usize = 0;
        while i < self.routes.len()
            invariant
                i <= self.routes@.len(),
                spec_route_result(self.routes@, cmd, data@) == spec_route_result(
                    self.routes@.skip(i as int),
                    cmd,
                    data@,
                ),
                spec_has_route(self.routes@, cmd) == spec_has_route(
                    self.routes@.skip(i as int),
                    cmd,
                ),
            decreases self.routes@.len() - i,
        {
            let route = &self.routes[i];
            proof {
                assert(self.routes@.skip(i as int).first() == self.routes@[i as int]);
                assert(self.routes@.skip(i as int).drop_first() =~= self.routes@.skip(i + 1));
                if route.0 != cmd {
                    assert(spec_has_route(self.routes@.skip(i as int), cmd) == spec_has_route(
                        self.routes@.skip(i + 1),
                        cmd,
                    )) by {
                        lemma_has_route_step(self.routes@.skip(i as int), cmd);
                    };
                }
            }
            if route.0 == cmd {
                let r = route.1.handle(data);
                proof {
                    assert(spec_has_route(self.routes@, cmd)) by {
                        assert(self.routes@[i as int].0 == cmd);
                    };
                }
                return r;
            }
            i += 1;
        }
        proof {
            assert(self.routes@.skip(self.routes@.len() as int).len() == 0);
        }
        Err(Error::NotFound)
    }
}

impl<H: Handler> Default for Router<H> {
    /// A router with no routes, identical to [`Router::new`].
    fn default() -> (r: Self)
        ensures
            r.routes@ == Seq::<(u16, H)>::empty(),
    {
        Self::new()
    }
}

/// Echoes the command payload back unchanged.
pub fn example_handler(data: &[u8]) -> (r: Result<Vec<u8>, Error>)
    ensures
        (match r {
            Ok(v) => v@ == data@,
            Err(_) => false,
        }),
{
    let mut out: Vec<u8> = Vec::new();
    out.extend_from_slice(data);
    Ok(out)
}

/// A handler that answers every command by echoing its payload.
#[derive(Debug, Clone, Copy)]
pub struct EchoHandler;

impl Handler for EchoHandler {
    open spec fn spec_handle(&self, payload: Seq<u8>) -> Result<Seq<u8>, Error> {
        Ok(payload)
    }

    fn handle(&self, payload: &[u8]) -> (r: Result<Vec<u8>, Error>) {
        example_handler(payload)
    }
}

} // verus!
