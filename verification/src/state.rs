//! The application's hold on the gateway: stopped, or running with one
//! supervisor.

use vstd::prelude::*;
use crate::error::GatewayError;
use crate::frame::closing_frame_spec;
use crate::handshake::Teardown;
use crate::server::{
    closes_all, denies_all, lists_keys, shutdown_frame, ShutdownPlan, WSServer, SHUTTING_DOWN,
};
use crate::ws::ClientWSConnection;

verus! {

/// State of the application: the supervisor of the gateway while it runs.
pub struct App<L, P, S> {
    pub server: Option<WSServer<L, P, S>>,
}

impl<L, P, S> App<L, P, S> {
    /// An application whose gateway is stopped.
    pub fn new() -> (app: Self)
        ensures
            app.server is None,
    {
        App { server: None }
    }

    /// Whether the gateway runs.
    pub fn is_server_running(&self) -> (running: bool)
        ensures
            running == self.server is Some,
    {
        self.server.is_some()
    }

    /// Starts the gateway with `abort_handle` as the handle of its listening
    /// task and with both tables empty.
    ///
    /// A running gateway is left as it is, and the handle comes back with
    /// the error.
    pub fn start_server(&mut self, abort_handle: L) -> (outcome: Result<(), (GatewayError, L)>)
        ensures
            match outcome {
                Ok(_) => {
                    &&& old(self).server is None
                    &&& final(self).server is Some
                    &&& final(self).server->0.listener() == abort_handle
                    &&& final(self).server->0.pending() == Map::<u128, P>::empty()
                    &&& final(self).server->0.active() == Map::<u128, S>::empty()
                },
                Err(refused) => {
                    &&& old(self).server is Some
                    &&& final(self).server == old(self).server
                    &&& refused.0 == GatewayError::ServerAlreadyRunning
                    &&& refused.1 == abort_handle
                },
            },
    {
        if self.server.is_some() {
            return Err((GatewayError::ServerAlreadyRunning, abort_handle));
        }
        self.server = Some(WSServer::new(abort_handle));
        Ok(())
    }

    /// Stops the gateway: the supervisor is taken out and emptied as
    /// [`WSServer::stop`] says. Fails where the gateway does not run.
    pub fn stop_server(&mut self) -> (outcome: Result<(ShutdownPlan<P, S>, L), ()>)
        ensures
            final(self).server is None,
            match outcome {
                Ok(parts) => {
                    &&& old(self).server is Some
                    &&& denies_all(parts.0.denials@, old(self).server->0.pending(), SHUTTING_DOWN@)
                    &&& closes_all(parts.0.closures@, old(self).server->0.active(), shutdown_frame())
                    &&& parts.1 == old(self).server->0.listener()
                },
                Err(_) => old(self).server is None,
            },
    {
        match self.server.take() {
            Some(server) => Ok(server.stop()),
            None => Err(()),
        }
    }

    /// The supervisor, while the gateway runs.
    pub fn server(&self) -> (server: Option<&WSServer<L, P, S>>)
        ensures
            match server {
                Some(s) => self.server == Some(*s),
                None => self.server is None,
            },
    {
        self.server.as_ref()
    }

    /// The supervisor, for changing it, while the gateway runs.
    pub fn server_mut(&mut self) -> (server: Option<&mut WSServer<L, P, S>>)
        ensures
            match *old(self) {
                App { server: None } => final(self).server is None && server is None,
                App { server: Some(s) } => {
                    &&& server is Some
                    &&& *server.unwrap() == s
                    &&& final(self).server == Some(*final(server.unwrap()))
                },
            },
    {
        self.server.as_mut()
    }

    /// Tears down a connection whose read loop is over. While the gateway
    /// runs, this is [`WSServer::teardown`]. Once it is stopped, its tables
    /// are gone: the connection is closed all the same, and the application
    /// is owed the terminal notification alone.
    pub fn teardown(&mut self, conn: &mut ClientWSConnection) -> (done: Teardown<S>)
        ensures
            final(conn)@ == old(conn)@.finished(),
            final(conn)@.well_formed(),
            old(conn)@.state is Closing ==> {
                &&& done.notice is Some
                &&& done.notice->0.id@ == old(conn)@.id
                &&& done.notice->0.reason@ == old(conn)@.final_reason()
            },
            !(old(conn)@.state is Closing) ==> done.notice is None && done.order is None,
            match old(self).server {
                None => final(self).server is None && done.order is None && done.active is None,
                Some(server) => {
                    &&& final(self).server is Some
                    &&& final(self).server->0.pending() == server.pending()
                    &&& final(self).server->0.listener() == server.listener()
                    &&& done.active is Some
                    &&& lists_keys(done.active->0@, final(self).server->0.active())
                    &&& if old(conn)@.state is Closing {
                        &&& final(self).server->0.active() == server.active().remove(old(conn)@.id)
                        &&& match done.order {
                            Some(order) => {
                                &&& server.active().contains_key(old(conn)@.id)
                                &&& order.id@ == old(conn)@.id
                                &&& order.handle == server.active()[old(conn)@.id]
                                &&& order.frame@ == closing_frame_spec(None, old(conn)@.reason)
                            },
                            None => !server.active().contains_key(old(conn)@.id),
                        }
                    } else {
                        final(self).server->0.active() == server.active()
                    }
                },
            },
    {
        match &mut self.server {
            Some(server) => server.teardown(conn),
            None => {
                let notice = conn.finish();
                Teardown { order: None, active: None, notice }
            },
        }
    }
}

} // verus!
