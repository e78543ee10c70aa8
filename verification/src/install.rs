use vstd::prelude::*;
use vstd::utf8::encode_utf8;
use crate::filter::LevelFilter;

verus! {

/// The configuration fields the pipeline consumes.
pub struct InitConfig {
    /// Directive for the structured-log layer's filter.
    pub log_level: String,
    /// Directive for the trace layer's filter.
    pub trace_level: String,
    /// Service identity attached to every exported span.
    pub service_name: String,
    /// Collector endpoint; absent means no trace layer is built.
    pub traces_endpoint: Option<String>,
}

/// The fatal conditions of installation.  Both are structural lifecycle
/// violations: the caller is expected to abort the process on either.
#[derive(Clone, Copy, PartialEq, Eq, Structural, Debug)]
pub enum InitError {
    /// A global subscriber is already installed; only one may ever exist.
    AlreadyInstalled,
    /// Installation was attempted outside the asynchronous runtime context
    /// it requires.
    RuntimeContextUnavailable,
}

/// The span-exporting stage of a plan: its own independently-parsed filter
/// (not hot-reloadable, a deliberate asymmetry with the log layer), the
/// service identity tagged onto every span, and the collector endpoint the
/// batching exporter delivers to.
#[derive(Debug)]
pub struct TraceStage {
    pub filter: LevelFilter,
    pub service_name: String,
    pub endpoint: String,
}

/// What one successful installation must build: the log layer's filter, and
/// the trace stage exactly when a collector endpoint was configured.
#[derive(Debug)]
pub struct PipelinePlan {
    pub log_filter: LevelFilter,
    pub trace: Option<TraceStage>,
}

/// The exactly-once installer of the process-wide subscriber.
pub struct Installer {
    /// Whether the one global subscriber has been installed.
    pub installed: bool,
}

/// The fatal condition `install` meets in state `st`, if any.
pub open spec fn spec_install_error(st: Installer, in_async_runtime: bool) -> Option<InitError> {
    if st.installed {
        Some(InitError::AlreadyInstalled)
    } else if !in_async_runtime {
        Some(InitError::RuntimeContextUnavailable)
    } else {
        None
    }
}

impl Installer {
    /// The installer as it stands at process start: nothing installed.
    pub fn new() -> (r: Installer)
        ensures
            !r.installed,
    {
        Installer { installed: false }
    }

    /// Decide one installation attempt.
    ///
    /// On the first call inside the runtime context this returns the plan of
    /// the subscriber to install — the log filter parsed from
    /// `cfg.log_level`, and a trace stage exactly when `cfg.traces_endpoint`
    /// is present — and marks the process installed.  Any later attempt, and
    /// any attempt outside the runtime context, fails without changing
    /// state; the caller treats those failures as fatal.
    pub fn install(&mut self, cfg: &InitConfig, in_async_runtime: bool) -> (r: Result<
        PipelinePlan,
        InitError,
    >)
        ensures
            match spec_install_error(*old(self), in_async_runtime) {
                Some(e) => r == Err::<PipelinePlan, InitError>(e) && *final(self) == *old(self),
                None => {
                    &&& final(self).installed
                    &&& r matches Ok(plan)
                    &&& plan.log_filter.models(encode_utf8(cfg.log_level@))
                    &&& (plan.trace is Some <==> cfg.traces_endpoint is Some)
                    &&& (cfg.traces_endpoint matches Some(ep) ==> plan.trace matches Some(ts)
                        && ts.filter.models(encode_utf8(cfg.trace_level@)) && ts.service_name@
                        == cfg.service_name@ && ts.endpoint@ == ep@)
                },
            },
    {
        if self.installed {
            return Err(InitError::AlreadyInstalled);
        }
        if !in_async_runtime {
            return Err(InitError::RuntimeContextUnavailable);
        }
        let log_filter = LevelFilter::new(cfg.log_level.as_str());
        let trace = match &cfg.traces_endpoint {
            Some(ep) => Some(
                TraceStage {
                    filter: LevelFilter::new(cfg.trace_level.as_str()),
                    service_name: cfg.service_name.clone(),
                    endpoint: ep.clone(),
                },
            ),
            None => None,
        };
        self.installed = true;
        Ok(PipelinePlan { log_filter, trace })
    }
}

/// Law: a second installation is always fatal.  Once the installer is in
/// the installed state, every further attempt — whatever the configuration
/// and whatever the context — meets `AlreadyInstalled`.
pub proof fn lemma_second_install_fatal(st: Installer)
    requires
        st.installed,
    ensures
        forall|in_rt: bool| spec_install_error(st, in_rt) == Some(InitError::AlreadyInstalled),
{
}

} // verus!
