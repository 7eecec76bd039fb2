//! Startup composition: one shell run owns one allocated port, one shutdown
//! flag and one supervisor.
//!
//! At startup the port allocator picks the first free port of the fixed
//! range; if none is free, startup fails with `NoPortAvailable` before any
//! child exists, and the shell must abort with a visible fatal error. On
//! success the port is recorded once in the port cell and the supervisor is
//! constructed idle, with zero launches.

use vstd::prelude::*;
use crate::StartupError;
use crate::ports::PortCell;
use crate::ports::all_occupied;
use crate::ports::allocate_port;
use crate::ports::is_first_free;
use crate::ports::PORT_RANGE_END;
use crate::ports::PORT_RANGE_START;
use crate::shutdown::ShutdownFlag;
use crate::supervisor::spec_handle_exit;
use crate::supervisor::ExitDecision;
use crate::supervisor::Supervisor;

verus! {

/// The process-wide state of one shell run.
pub struct Shell {
    /// The one-shot cell answering the UI's port query.
    pub port_cell: PortCell,
    /// The one-shot shutdown flag.
    pub flag: ShutdownFlag,
    /// The supervisor of the backend child process.
    pub supervisor: Supervisor,
}

/// Allocates a port from the shell's fixed range and builds the run's
/// state. Fails with `NoPortAvailable` — before any child is spawned — when
/// and only when every port of the range is occupied. On success the
/// supervisor is idle with zero launches, it carries the first free port of
/// the range, the port cell answers with that same port, and shutdown is
/// not requested. `occupied[i]` reports whether port `PORT_RANGE_START + i`
/// is taken.
pub fn init_shell(program: String, entry: String, occupied: &Vec<bool>) -> (r: Result<
    Shell,
    StartupError,
>)
    requires
        occupied@.len() == PORT_RANGE_END - PORT_RANGE_START,
    ensures
        r matches Ok(shell) ==> {
            &&& is_first_free(PORT_RANGE_START, occupied@, shell.supervisor.port)
            &&& shell.port_cell.spec_port() == shell.supervisor.port
            &&& !shell.flag.spec_requested()
            &&& shell.supervisor.state is Idle
            &&& shell.supervisor.launches == 0
            &&& shell.supervisor.program@ == program@
            &&& shell.supervisor.entry@ == entry@
        },
        r matches Err(e) ==> e == StartupError::NoPortAvailable && all_occupied(occupied@),
        r is Ok <==> !all_occupied(occupied@),
{
    match allocate_port(PORT_RANGE_START, PORT_RANGE_END, occupied) {
        Ok(port) => {
            let mut port_cell = PortCell::new();
            port_cell.set(port);
            let flag = ShutdownFlag::new();
            let supervisor = Supervisor::new(program, entry, port);
            Ok(Shell { port_cell, flag, supervisor })
        },
        Err(e) => Err(e),
    }
}

impl Shell {
    /// The supervisor's reaction to the running child's stream closing: it
    /// reads the shutdown flag at that instant and decides to relaunch
    /// exactly when shutdown has not been requested. The flag and the port
    /// cell are left untouched.
    pub fn on_child_stream_closed(&mut self) -> (d: ExitDecision)
        requires
            old(self).supervisor.state is Running,
        ensures
            final(self).supervisor == spec_handle_exit(
                old(self).supervisor,
                old(self).flag.spec_requested(),
            ),
            final(self).flag == old(self).flag,
            final(self).port_cell == old(self).port_cell,
            d is Relaunch <==> !old(self).flag.spec_requested(),
            final(self).supervisor.port == old(self).supervisor.port,
            final(self).supervisor.launches == old(self).supervisor.launches,
    {
        let shutdown = self.flag.is_shutdown_requested();
        self.supervisor.handle_exit(shutdown)
    }
}

} // verus!
