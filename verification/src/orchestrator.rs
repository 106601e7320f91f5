//! Which surfaces run, and how they are brought down together: the first
//! interrupt or the first surface that ends stops all the others.

use crate::config::configuration::Mode;
use vstd::prelude::*;

verus! {

/// A long-running surface.
#[derive(Clone, Copy, PartialEq, Eq, Debug, Structural)]
pub enum Surface {
    Http,
    Console,
}

/// Where a surface stands.
#[derive(Clone, Copy, PartialEq, Eq, Debug, Structural)]
pub enum SurfaceState {
    /// Not asked for.
    Absent,
    /// Started and at work.
    Running,
    /// Told to stop; it has not ended yet.
    Cancelling,
    /// Ended, with its resources released.
    Ended,
}

/// What the program is asked to run.
#[derive(Clone, Copy, PartialEq, Eq, Debug, Structural)]
pub enum Plan {
    /// Print one code and exit.
    OneShot,
    /// Run these long-running surfaces.
    Surfaces { http: bool, console: bool },
    /// Nothing was selected: say how the program is used, and exit.
    Usage,
    /// Import secrets from a QR code.
    Configure,
}

/// Something that ends a run.
#[derive(Clone, Copy, PartialEq, Eq, Debug, Structural)]
pub enum Event {
    /// The interrupt signal arrived.
    Interrupt,
    /// A surface ended, by itself or after it was told to stop.
    Ended(Surface),
}

/// What the caller does after an event.
#[derive(Clone, Copy, PartialEq, Eq, Debug, Structural)]
pub enum Command {
    /// Go on waiting.
    Wait,
    /// Tell these surfaces to stop, then go on waiting.
    Cancel { http: bool, console: bool },
    /// Every surface has ended: leave.
    Exit,
}

/// The message for a run in which nothing was selected.
pub open spec fn usage_text() -> Seq<char> {
    "Please select at least one of the modes: console/http or one-time"@
}

/// The message for a run in which nothing was selected.
pub fn usage_message() -> (text: String)
    ensures
        text@ == usage_text(),
{
    "Please select at least one of the modes: console/http or one-time".to_owned()
}

/// What a mode asks to run: the HTTP surface where an address to bind is
/// given, the interactive display unless it is switched off.
pub open spec fn planned(mode: Mode) -> Plan {
    match mode {
        Mode::OneTime { .. } => Plan::OneShot,
        Mode::Interface { bind, no_console, .. } => if bind is None && no_console {
            Plan::Usage
        } else {
            Plan::Surfaces { http: bind is Some, console: !no_console }
        },
        Mode::Configure { .. } => Plan::Configure,
    }
}

/// What a mode asks to run.
pub fn plan(mode: &Mode) -> (plan: Plan)
    ensures
        plan == planned(*mode),
{
    match mode {
        Mode::OneTime { .. } => Plan::OneShot,
        Mode::Interface { bind, no_console, .. } => {
            if bind.is_none() && *no_console {
                Plan::Usage
            } else {
                Plan::Surfaces { http: bind.is_some(), console: !*no_console }
            }
        },
        Mode::Configure { .. } => Plan::Configure,
    }
}

/// The event that is handled when several may be ready at once: the
/// interrupt comes before a surface that has ended.
pub fn next_event(interrupt_ready: bool, ended: Option<Surface>) -> (event: Option<Event>)
    ensures
        event == if interrupt_ready {
            Some(Event::Interrupt)
        } else {
            match ended {
                Some(surface) => Some(Event::Ended(surface)),
                None => None,
            }
        },
{
    if interrupt_ready {
        Some(Event::Interrupt)
    } else {
        match ended {
            Some(surface) => Some(Event::Ended(surface)),
            None => None,
        }
    }
}

/// The surfaces of one run and how far their shutdown has come.
#[derive(Clone, Copy, PartialEq, Eq, Debug, Structural)]
pub struct Supervisor {
    pub http: SurfaceState,
    pub console: SurfaceState,
    /// Whether a first terminating event has been handled.
    pub stopping: bool,
}

impl Supervisor {
    /// Where `surface` stands.
    pub open spec fn state_of(self, surface: Surface) -> SurfaceState {
        match surface {
            Surface::Http => self.http,
            Surface::Console => self.console,
        }
    }

    /// This supervisor with `surface` in state `state`.
    pub open spec fn with(self, surface: Surface, state: SurfaceState) -> Supervisor {
        match surface {
            Surface::Http => Supervisor { http: state, ..self },
            Surface::Console => Supervisor { console: state, ..self },
        }
    }

    /// Whether a surface is started and has not ended.
    pub open spec fn active(state: SurfaceState) -> bool {
        state is Running || state is Cancelling
    }

    /// Whether no surface is left that has not ended.
    pub open spec fn quiet(self) -> bool {
        !Self::active(self.http) && !Self::active(self.console)
    }

    /// The surfaces of a run before any event.
    pub open spec fn started(http: bool, console: bool) -> Supervisor {
        Supervisor {
            http: if http {
                SurfaceState::Running
            } else {
                SurfaceState::Absent
            },
            console: if console {
                SurfaceState::Running
            } else {
                SurfaceState::Absent
            },
            stopping: false,
        }
    }

    /// The state of a surface once the others are told to stop.
    pub open spec fn told(state: SurfaceState) -> SurfaceState {
        if state is Running {
            SurfaceState::Cancelling
        } else {
            state
        }
    }

    /// The supervisor after an event. The first event starts the shutdown:
    /// a surface that ended is marked so, and every surface still running is
    /// told to stop. After that an interrupt changes nothing, and a surface
    /// that ends is marked so.
    pub open spec fn after(self, event: Event) -> Supervisor {
        let marked = match event {
            Event::Interrupt => self,
            Event::Ended(surface) => if Self::active(self.state_of(surface)) {
                self.with(surface, SurfaceState::Ended)
            } else {
                self
            },
        };
        if self.stopping {
            marked
        } else {
            Supervisor {
                http: Self::told(marked.http),
                console: Self::told(marked.console),
                stopping: true,
            }
        }
    }

    /// What the caller does after an event. With the first event the
    /// surfaces still running are told to stop; once no surface is left the
    /// caller leaves; otherwise it goes on waiting.
    pub open spec fn command(self, event: Event) -> Command {
        let next = self.after(event);
        if next.quiet() {
            if self.stopping && self.quiet() {
                Command::Wait
            } else {
                Command::Exit
            }
        } else if self.stopping {
            Command::Wait
        } else {
            Command::Cancel {
                http: self.http is Running && next.http is Cancelling,
                console: self.console is Running && next.console is Cancelling,
            }
        }
    }

    /// Starts a run with the surfaces that were asked for.
    pub fn start(http: bool, console: bool) -> (supervisor: Supervisor)
        ensures
            supervisor == Self::started(http, console),
    {
        Supervisor {
            http: if http {
                SurfaceState::Running
            } else {
                SurfaceState::Absent
            },
            console: if console {
                SurfaceState::Running
            } else {
                SurfaceState::Absent
            },
            stopping: false,
        }
    }

    /// Whether no surface is left that has not ended.
    pub fn is_quiet(&self) -> (answer: bool)
        ensures
            answer == self.quiet(),
    {
        !is_active(self.http) && !is_active(self.console)
    }

    /// Takes in an event and says what to do.
    pub fn on_event(&mut self, event: Event) -> (command: Command)
        ensures
            *final(self) == old(self).after(event),
            command == old(self).command(event),
    {
        let was_stopping = self.stopping;
        let was_quiet = self.is_quiet();
        let http_ran = self.http == SurfaceState::Running;
        let console_ran = self.console == SurfaceState::Running;
        match event {
            Event::Interrupt => {},
            Event::Ended(Surface::Http) => {
                if is_active(self.http) {
                    self.http = SurfaceState::Ended;
                }
            },
            Event::Ended(Surface::Console) => {
                if is_active(self.console) {
                    self.console = SurfaceState::Ended;
                }
            },
        }
        if !was_stopping {
            self.http = tell(self.http);
            self.console = tell(self.console);
            self.stopping = true;
        }
        if self.is_quiet() {
            if was_stopping && was_quiet {
                Command::Wait
            } else {
                Command::Exit
            }
        } else if was_stopping {
            Command::Wait
        } else {
            Command::Cancel {
                http: http_ran && self.http == SurfaceState::Cancelling,
                console: console_ran && self.console == SurfaceState::Cancelling,
            }
        }
    }
}

/// Whether a surface is started and has not ended.
pub fn is_active(state: SurfaceState) -> (answer: bool)
    ensures
        answer == Supervisor::active(state),
{
    state == SurfaceState::Running || state == SurfaceState::Cancelling
}

/// The state of a surface once it is told to stop, if it is running.
pub fn tell(state: SurfaceState) -> (next: SurfaceState)
    ensures
        next == Supervisor::told(state),
{
    if state == SurfaceState::Running {
        SurfaceState::Cancelling
    } else {
        state
    }
}

/// Asking for no surface and no single code starts nothing: the plan is to
/// say how the program is used.
pub proof fn lemma_nothing_selected_starts_nothing(mode: Mode)
    requires
        mode matches Mode::Interface { bind, no_console, .. } && bind is None && no_console,
    ensures
        planned(mode) == Plan::Usage,
{
}

/// The first event of a run tells every surface that is still running to
/// stop, and no other.
pub proof fn lemma_first_event_cancels_the_rest(supervisor: Supervisor, event: Event)
    requires
        !supervisor.stopping,
    ensures
        supervisor.after(event).stopping,
        !(supervisor.after(event).http is Running),
        !(supervisor.after(event).console is Running),
        supervisor.command(event) matches Command::Cancel { http, console } ==> {
            &&& http == (supervisor.http is Running && event != Event::Ended(Surface::Http))
            &&& console == (supervisor.console is Running && event != Event::Ended(
                Surface::Console,
            ))
        },
        supervisor.command(event) is Exit <==> supervisor.after(event).quiet(),
{
}

/// Shutdown is idempotent: once it has begun an interrupt changes nothing
/// and asks for nothing, and no surface is ever told to stop again.
pub proof fn lemma_shutdown_is_idempotent(supervisor: Supervisor, event: Event)
    requires
        supervisor.stopping,
    ensures
        supervisor.after(Event::Interrupt) == supervisor,
        supervisor.command(Event::Interrupt) == Command::Wait,
        !(supervisor.command(event) is Cancel),
        supervisor.after(event).stopping,
{
}

/// The caller leaves only when no surface is left that has not ended.
pub proof fn lemma_exit_means_quiet(supervisor: Supervisor, event: Event)
    ensures
        supervisor.command(event) is Exit ==> supervisor.after(event).quiet(),
{
}

} // verus!
