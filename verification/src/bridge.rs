//! The property bridge: composes templating, execution and parsing into
//! `get_property`, `get_properties` and `property` operations, with the
//! readiness gate `is_song_ready` on top.
//!
//! The bridge is constructed once and reused.  It holds only the immutable
//! template text and the handle to the process-execution mechanism — no
//! other state — so every call is a fresh, independently serialized attempt
//! with no retries at this layer.

use vstd::prelude::*;

use crate::error::BridgeError;
use crate::host;
use crate::response;
use crate::response::ProbeResponse;
use crate::script;
use crate::script::Template;

verus! {

/// The value a single-property read yields from a host output capture.
pub open spec fn property_text_spec(out: Option<Seq<char>>) -> Seq<char> {
    match out {
        Some(s) => s,
        None => Seq::<char>::empty(),
    }
}

/// Captured text verbatim if the host printed any, else the empty string.
/// Empty output is not an error: "no song loaded" and similar states
/// legitimately produce it.
pub fn property_text(out: Option<String>) -> (r: String)
    ensures
        out matches Some(s) ==> r@ == property_text_spec(Some(s@)),
        out is None ==> r@ == property_text_spec(None),
{
    match out {
        Some(s) => s,
        None => String::new(),
    }
}

/// Whether a current-track probe's text says a track is loaded: true iff
/// the returned text is non-empty.
pub fn track_loaded(text: &str) -> (r: bool)
    ensures
        r == (text@.len() > 0),
{
    text.unicode_len() > 0
}

/// The bridge to the player's automation object, reachable only through the
/// scripting host.
pub struct Itunes {
    power_shell: powershell_script::PsScript,
    itunes_echo_script: Template,
    itunes_script: Template,
    itunes_echo_multiple_script: Template,
}

impl Itunes {
    /// The template text never changes after construction: the single-probe,
    /// command and multi-probe bodies hold their fixed text.
    #[verifier::type_invariant]
    spec fn wf(&self) -> bool {
        &&& self.itunes_echo_script.before@ == script::probe_before()
        &&& self.itunes_echo_script.after@ == script::probe_after()
        &&& self.itunes_script.before@ == script::command_before()
        &&& self.itunes_script.after@ == script::command_after()
        &&& self.itunes_echo_multiple_script.before@ == script::multi_before()
        &&& self.itunes_echo_multiple_script.after@ == script::multi_after()
    }

    /// A bridge holding the three fixed template bodies and a host handle.
    pub fn new() -> (r: Itunes) {
        Itunes {
            power_shell: host::build_host(),
            itunes_echo_script: script::probe_template(),
            itunes_script: script::command_template(),
            itunes_echo_multiple_script: script::multi_template(),
        }
    }

    /// Renders the script for one expression: the single-probe body when
    /// `echo` is set, the command body otherwise.
    pub fn compile_script(&self, prop: &str, echo: bool) -> (r: String)
        ensures
            echo ==> r@ == script::probe_script(prop@),
            !echo ==> r@ == script::command_script(prop@),
    {
        proof {
            use_type_invariant(self);
        }
        if echo {
            self.itunes_echo_script.render(prop)
        } else {
            self.itunes_script.render(prop)
        }
    }

    /// Renders the batch script: one print statement per expression, in the
    /// exact order given.  An empty expression list renders a script with
    /// zero print statements.
    pub fn compile_large_script(&self, props: &Vec<&str>) -> (r: String)
        ensures
            r@ == script::multi_probe_script(props.deep_view()),
    {
        proof {
            use_type_invariant(self);
        }
        let lines = script::build_print_statements(props);
        self.itunes_echo_multiple_script.render(lines.as_str())
    }

    /// Reads one property: captured text verbatim if the host printed any,
    /// else the empty string.  Never fails on empty output; callers
    /// distinguish "empty value" from "property doesn't exist" themselves.
    pub fn get_property(&self, prop: &str) -> (r: Result<String, BridgeError>)
        ensures
            r matches Err(e) ==> e.is_host_error(),
    {
        let script_text = self.compile_script(prop, true);
        match host::run_host(&self.power_shell, script_text.as_str()) {
            Ok(out) => Ok(property_text(out.stdout())),
            Err(e) => Err(e),
        }
    }

    /// Reads several properties in one host invocation.  On success the
    /// response pairs each requested expression, in the order given, with
    /// the output line at the same position; on a line count mismatch the
    /// whole batch fails instead of misattributing any line.
    pub fn get_properties(&self, props: Vec<&str>) -> (r: Result<ProbeResponse, BridgeError>)
        ensures
            r matches Ok(resp) ==> resp@.len() == props.deep_view().len() && (forall|i: int|
                0 <= i < resp@.len() ==> (#[trigger] resp@[i]).0 == props.deep_view()[i]),
            r matches Err(e) ==> e.is_host_error() || e == BridgeError::MisalignedResponse,
    {
        let script_text = self.compile_large_script(&props);
        match host::run_host(&self.power_shell, script_text.as_str()) {
            Ok(out) => {
                let raw = property_text(out.stdout());
                response::parse_response(raw.as_str(), &props)
            },
            Err(e) => Err(e),
        }
    }

    /// Runs one command expression for effect; a host failure is surfaced
    /// to the caller (control commands are assumed executable once a player
    /// session exists).
    pub fn property(&self, prop: &str) -> (r: Result<(), BridgeError>)
        ensures
            r matches Err(e) ==> e.is_host_error(),
    {
        let script_text = self.compile_script(prop, false);
        match host::run_host(&self.power_shell, script_text.as_str()) {
            Ok(_) => Ok(()),
            Err(e) => Err(e),
        }
    }

    /// The readiness gate: probes the designated current-track property and
    /// reports whether a track is loaded, i.e. the returned text is
    /// non-empty.
    pub fn is_song_ready(&self) -> (r: Result<bool, BridgeError>)
        ensures
            r matches Err(e) ==> e.is_host_error(),
    {
        match self.get_property("CurrentTrack") {
            Ok(text) => Ok(track_loaded(text.as_str())),
            Err(e) => Err(e),
        }
    }
}

} // verus!
