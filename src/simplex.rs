use vstd::prelude::*;

verus! {

/// Why a simplex channel refused a step.
#[derive(Clone, Copy, Debug, PartialEq, Eq, Structural)]
pub enum SimplexError {
    /// The channel has failed; it accepts nothing more.
    ConnectionClosed,
    /// A request is already in flight.
    Busy,
    /// A response arrived for another id, or when none was expected; the
    /// channel is dead afterwards.
    IdMismatch { expected: Option<u32>, got: u32 },
}

/// One request at a time on a connection: a request is begun, then the next
/// frame read must answer it.
pub struct SimplexState {
    last_id: u32,
    in_flight: Option<u32>,
    alive: bool,
}

impl SimplexState {
    pub closed spec fn spec_last_id(&self) -> u32 {
        self.last_id
    }

    pub closed spec fn spec_in_flight(&self) -> Option<u32> {
        self.in_flight
    }

    pub closed spec fn spec_alive(&self) -> bool {
        self.alive
    }

    pub fn new() -> (r: Self)
        ensures
            r.spec_alive(),
            r.spec_in_flight() is None,
            r.spec_last_id() == 0,
    {
        SimplexState { last_id: 0, in_flight: None, alive: true }
    }

    pub fn is_alive(&self) -> (r: bool)
        ensures
            r == self.spec_alive(),
    {
        self.alive
    }

    /// Starts a request under the next id of the wrapping counter.
    pub fn begin(&mut self) -> (r: Result<u32, SimplexError>)
        ensures
            !old(self).spec_alive() ==> r == Err::<u32, SimplexError>(SimplexError::ConnectionClosed),
            old(self).spec_alive() && old(self).spec_in_flight() is Some ==> r == Err::<
                u32,
                SimplexError,
            >(SimplexError::Busy),
            r is Err ==> *final(self) == *old(self),
            old(self).spec_alive() && old(self).spec_in_flight() is None ==> r is Ok,
            r matches Ok(id) ==> {
                &&& id as int == (old(self).spec_last_id() as int + 1) % 0x1_0000_0000
                &&& final(self).spec_in_flight() == Some(id)
                &&& final(self).spec_last_id() == id
                &&& final(self).spec_alive()
            },
    {
        if !self.alive {
            return Err(SimplexError::ConnectionClosed);
        }
        if self.in_flight.is_some() {
            return Err(SimplexError::Busy);
        }
        let id = ((self.last_id as u64 + 1) % 0x1_0000_0000) as u32;
        self.last_id = id;
        self.in_flight = Some(id);
        Ok(id)
    }

    /// Accepts the response read for `id`: it must answer the request in
    /// flight, else the channel is dead.
    pub fn finish(&mut self, id: u32) -> (r: Result<(), SimplexError>)
        ensures
            final(self).spec_last_id() == old(self).spec_last_id(),
            final(self).spec_in_flight() is None,
            !old(self).spec_alive() ==> r == Err::<(), SimplexError>(SimplexError::ConnectionClosed)
                && !final(self).spec_alive(),
            old(self).spec_alive() && old(self).spec_in_flight() == Some(id) ==> r is Ok
                && final(self).spec_alive(),
            old(self).spec_alive() && old(self).spec_in_flight() != Some(id) ==> r == Err::<
                (),
                SimplexError,
            >(SimplexError::IdMismatch { expected: old(self).spec_in_flight(), got: id })
                && !final(self).spec_alive(),
    {
        if !self.alive {
            self.in_flight = None;
            return Err(SimplexError::ConnectionClosed);
        }
        let expected = self.in_flight;
        self.in_flight = None;
        match expected {
            Some(e) => {
                if e == id {
                    return Ok(());
                }
            },
            None => {},
        }
        self.alive = false;
        Err(SimplexError::IdMismatch { expected, got: id })
    }

    /// Marks the channel dead after an I/O error and hands back the id of
    /// the request that was in flight, if any.
    pub fn fail(&mut self) -> (r: Option<u32>)
        ensures
            r == old(self).spec_in_flight(),
            !final(self).spec_alive(),
            final(self).spec_in_flight() is None,
            final(self).spec_last_id() == old(self).spec_last_id(),
    {
        self.alive = false;
        let r = self.in_flight;
        self.in_flight = None;
        r
    }
}

} // verus!
