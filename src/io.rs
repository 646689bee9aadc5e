use vstd::prelude::*;

verus! {

/// Correlation token handed to the readiness multiplexer; for descriptor
/// sources it carries the raw descriptor number.
#[derive(Clone, Copy, Debug, PartialEq, Eq, Structural)]
pub struct Token(pub usize);

/// Readiness interest of a registration: read, write, or both.
#[derive(Clone, Copy, Debug, PartialEq, Eq, Structural)]
pub struct Interest {
    pub readable: bool,
    pub writable: bool,
}

/// A pollable source: a raw OS descriptor.
#[derive(Clone, Copy, Debug, PartialEq, Eq, Structural)]
pub enum Source {
    FD(i32),
}

/// A registration request queued for the reactor.
#[derive(Clone, Copy, Debug, PartialEq, Eq, Structural)]
pub enum ScheduledIO {
    Add(Token, Interest),
    Upd(Token, Interest),
}

/// The largest descriptor number a token can carry.
pub const MAX_FD: usize = 0x7fff_ffff;

impl ScheduledIO {
    pub open spec fn token(&self) -> Token {
        match self {
            ScheduledIO::Add(t, _) => *t,
            ScheduledIO::Upd(t, _) => *t,
        }
    }

    /// The descriptor named by the request's token.
    pub fn source(&self) -> (r: Source)
        requires
            self.token().0 <= MAX_FD,
        ensures
            r == Source::FD(self.token().0 as i32),
    {
        match self {
            ScheduledIO::Add(token, _) => Source::FD(token.0 as i32),
            ScheduledIO::Upd(token, _) => Source::FD(token.0 as i32),
        }
    }
}

} // verus!
