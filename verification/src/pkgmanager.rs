//! A package manager chosen for an attempt, together with the shell
//! session its commands go to.

use vstd::prelude::*;
use crate::auth::{AuthAction, AuthState, AuthView, AuthenticationProtocol, Readiness};
use crate::catalog::{
    DescriptorView, PackageManagerCatalog, PackageManagerDescriptor, first_installed,
    install_command, uninstall_command,
};
use crate::error::{Error, ErrorView};
use crate::session::{
    Disposal, ElevationMode, PrivilegedSession, SessionView, SpawnPlan, command_line,
    fresh_session, shell_plan,
};
use crate::text::texts;

verus! {

/// Mathematical model of a chosen manager.
pub struct ManagerView {
    pub descriptor: DescriptorView,
    pub session: SessionView,
}

/// The manager chosen for an attempt and the session its one command is
/// written to. That session is ready for the command as long as this value
/// exists: rendering a command takes the value and the input with it.
#[derive(Debug)]
pub struct PackageManager {
    descriptor: PackageManagerDescriptor,
    session: PrivilegedSession,
}

impl View for PackageManager {
    type V = ManagerView;

    closed spec fn view(&self) -> ManagerView {
        ManagerView { descriptor: self.descriptor@, session: self.session@ }
    }
}

/// Mathematical model of a manager that waits for the authentication.
pub struct PendingView {
    pub descriptor: DescriptorView,
    pub auth: AuthView,
}

impl PendingView {
    /// The pending manager after one step of the protocol.
    pub open spec fn stepped(self, seen: Readiness) -> PendingView {
        PendingView { descriptor: self.descriptor, auth: self.auth.stepped(seen) }
    }
}

/// A manager that is chosen but not yet usable: the authentication
/// protocol on its session has to grant access first. It holds the secret
/// and cannot be printed.
pub struct PendingManager {
    descriptor: PackageManagerDescriptor,
    auth: AuthenticationProtocol,
}

impl View for PendingManager {
    type V = PendingView;

    closed spec fn view(&self) -> PendingView {
        PendingView { descriptor: self.descriptor@, auth: self.auth@ }
    }
}

/// What giving up a session takes: close its input if that is still open,
/// and wait for the child.
pub open spec fn disposal_of(session: SessionView) -> Disposal {
    Disposal { close_stdin: session.stdin_open, wait: true }
}

impl PendingManager {
    /// The program name of the manager.
    pub fn name(&self) -> (n: &'static str)
        ensures
            n@ == self@.descriptor.name,
    {
        self.descriptor.name
    }

    /// The state of the authentication protocol.
    pub fn state(&self) -> (s: AuthState)
        ensures
            s == self@.auth.state,
            self@.auth.wf(),
    {
        self.auth.state()
    }

    /// Takes one step of the authentication protocol.
    pub fn advance(&mut self, seen: Readiness) -> (action: AuthAction)
        ensures
            final(self)@ == old(self)@.stepped(seen),
            action@ == old(self)@.auth.next_action(seen),
            final(self)@.auth.wf(),
    {
        self.auth.advance(seen)
    }

    /// Ends the authentication. If access was granted the manager is ready
    /// for its command. If it was not, or not yet, the answer is
    /// `PermissionDenied`, together with what giving up the session takes.
    pub fn finish(self) -> (r: Result<PackageManager, (Error, Disposal)>)
        ensures
            self@.auth.state == AuthState::Authenticated ==> (r matches Ok(manager) && manager@ == (
            ManagerView { descriptor: self@.descriptor, session: self@.auth.session })),
            self@.auth.state != AuthState::Authenticated ==> (r matches Err(refusal) && refusal.0@
                == ErrorView::PermissionDenied && refusal.1 == disposal_of(self@.auth.session)),
    {
        let granted = match self.auth.state() {
            AuthState::Authenticated => true,
            _ => false,
        };
        let (session, _) = self.auth.into_session();
        if granted {
            Ok(PackageManager { descriptor: self.descriptor, session })
        } else {
            Err((Error::PermissionDenied, session.dispose()))
        }
    }

    /// Gives the session up without ending the authentication, and says
    /// what that takes.
    pub fn abandon(self) -> (d: Disposal)
        ensures
            d == disposal_of(self@.auth.session),
    {
        let (session, _) = self.auth.into_session();
        session.dispose()
    }
}

impl PackageManager {
    #[verifier::type_invariant]
    spec fn ready_for_command(self) -> bool {
        self.session@.can_write()
    }

    /// Chooses a manager for a caller who is already privileged, and plans
    /// a plain shell for it. A caller who is not privileged is refused with
    /// `PermissionDenied`, before anything else is looked at; with no
    /// manager among `installed` the answer is `NotSupported`.
    pub fn new(catalog: &PackageManagerCatalog, mode: ElevationMode, installed: &Vec<String>) -> (r:
        Result<(PackageManager, SpawnPlan), Error>)
        ensures
            mode != ElevationMode::Root ==> (r matches Err(e) && e@ == ErrorView::PermissionDenied),
            mode == ElevationMode::Root ==> match first_installed(catalog@, texts(installed@)) {
                Some(i) => r matches Ok(pair) && pair.0@ == (ManagerView {
                    descriptor: catalog@[i],
                    session: fresh_session(mode),
                }) && pair.1@ == shell_plan(mode),
                None => r matches Err(e) && e@ == ErrorView::NotSupported,
            },
    {
        if !mode.is_privileged() {
            return Err(Error::PermissionDenied);
        }
        match catalog.select(installed) {
            Ok(descriptor) => {
                let (session, plan) = PrivilegedSession::open(mode);
                Ok((PackageManager { descriptor, session }, plan))
            },
            Err(e) => Err(e),
        }
    }

    /// Chooses a manager, plans the shell that fits the caller's mode, and
    /// layers the authentication protocol with the secret on its session.
    /// The manager is pending until the protocol grants access. With no
    /// manager among `installed` the answer is `NotSupported` and nothing
    /// is planned.
    pub fn new_with_passwd(
        catalog: &PackageManagerCatalog,
        passwd: String,
        mode: ElevationMode,
        installed: &Vec<String>,
    ) -> (r: Result<(PendingManager, SpawnPlan), Error>)
        ensures
            match first_installed(catalog@, texts(installed@)) {
                Some(i) => r matches Ok(parts) && parts.0@ == (PendingView {
                    descriptor: catalog@[i],
                    auth: AuthView {
                        state: AuthState::Start,
                        secret: passwd@,
                        session: fresh_session(mode),
                    },
                }) && parts.1@ == shell_plan(mode),
                None => r matches Err(e) && e@ == ErrorView::NotSupported,
            },
    {
        match catalog.select(installed) {
            Ok(descriptor) => {
                let (auth, plan) = AuthenticationProtocol::open(mode, passwd);
                Ok((PendingManager { descriptor, auth }, plan))
            },
            Err(e) => Err(e),
        }
    }

    /// The program name of the manager.
    pub fn name(&self) -> (n: &'static str)
        ensures
            n@ == self@.descriptor.name,
    {
        self.descriptor.name
    }

    /// The descriptor of the manager.
    pub fn descriptor(&self) -> (d: PackageManagerDescriptor)
        ensures
            d@ == self@.descriptor,
    {
        self.descriptor
    }

    /// The session the command goes to. It is ready for a command.
    pub fn session(&self) -> (s: &PrivilegedSession)
        ensures
            s@ == self@.session,
            s@.can_write(),
    {
        proof {
            use_type_invariant(self);
        }
        &self.session
    }

    /// Renders the command that installs `pkgs` and frames it as the one
    /// line to write to the session, whose input is taken by this.
    pub fn install(self, pkgs: &Vec<String>) -> (r: (PrivilegedSession, String))
        ensures
            self@.session.can_write(),
            r.0@ == self@.session.submitted(),
            r.1@ == command_line(install_command(self@.descriptor, texts(pkgs@))),
    {
        proof {
            use_type_invariant(&self);
        }
        let mut session = self.session;
        let command = self.descriptor.install(pkgs);
        let line = session.submit(command.as_str());
        (session, line)
    }

    /// Renders the command that removes `pkgs` and frames it as the one
    /// line to write to the session, whose input is taken by this.
    pub fn uninstall(self, pkgs: &Vec<String>) -> (r: (PrivilegedSession, String))
        ensures
            self@.session.can_write(),
            r.0@ == self@.session.submitted(),
            r.1@ == command_line(uninstall_command(self@.descriptor, texts(pkgs@))),
    {
        proof {
            use_type_invariant(&self);
        }
        let mut session = self.session;
        let command = self.descriptor.uninstall(pkgs);
        let line = session.submit(command.as_str());
        (session, line)
    }
}

} // verus!
