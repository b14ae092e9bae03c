//! The status record kept for one kernel name: which source it was last
//! scaffolded from, whether the scaffold and the compiled artifact are
//! current, and the last captured toolchain output.

use vstd::prelude::*;

verus! {

/// Mathematical model of a [`KernelState`]: the same fields over sequences
/// of characters.
#[verifier::ext_equal]
pub struct StateModel {
    pub home: Seq<char>,
    pub name: Seq<char>,
    pub populated: bool,
    pub compiled: bool,
    pub device_source: Option<Seq<char>>,
    pub message: Option<Seq<char>>,
    pub artifact: Option<Seq<char>>,
}

impl StateModel {
    /// Well-formedness: an artifact is cached exactly when the record says the
    /// build succeeded, a successful build always left a message, and a record
    /// with no source has neither scaffold nor artifact.
    pub open spec fn wf(self) -> bool {
        &&& self.compiled <==> self.artifact is Some
        &&& self.compiled ==> self.message is Some
        &&& self.device_source is None ==> !self.populated && !self.compiled
    }

    /// The freshly created record for a kernel that has no state on disk.
    pub open spec fn fresh(home: Seq<char>, name: Seq<char>) -> StateModel {
        StateModel {
            home: home,
            name: name,
            populated: false,
            compiled: false,
            device_source: None,
            message: None,
            artifact: None,
        }
    }

    /// True when the record's stored source is present and equal to `source`.
    pub open spec fn source_matches(self, source: Seq<char>) -> bool {
        self.device_source matches Some(d) && d == source
    }

    /// The record after switching to a new device source: the source is
    /// replaced and everything derived from the old source is cleared.
    pub open spec fn invalidated(self, source: Seq<char>) -> StateModel {
        StateModel {
            device_source: Some(source),
            populated: false,
            compiled: false,
            message: None,
            artifact: None,
            ..self
        }
    }

    /// The record after a successful build: message and artifact are cached.
    pub open spec fn built(self, message: Seq<char>, artifact: Seq<char>) -> StateModel {
        StateModel { compiled: true, message: Some(message), artifact: Some(artifact), ..self }
    }

    /// The record after a failed build: only the captured diagnostic changes;
    /// in particular the stored source is kept, so the same source is retried.
    pub open spec fn failed(self, message: Seq<char>) -> StateModel {
        StateModel { compiled: false, message: Some(message), artifact: None, ..self }
    }
}

/// The persisted status record for one kernel name.
pub struct KernelState {
    /// Root directory under which every kernel's scaffold and record live.
    pub home: String,
    /// The kernel's name: scaffold subdirectory and record filename stem.
    pub name: String,
    /// Whether the scaffold directory holds the template and source files.
    pub populated: bool,
    /// Whether the last build of the current source succeeded.
    pub compiled: bool,
    /// The device source the scaffold was last written from.
    pub device_source: Option<String>,
    /// The captured output of the last build, success or failure.
    pub message: Option<String>,
    /// The compiled artifact, present exactly when `compiled`.
    pub artifact: Option<String>,
}

impl View for KernelState {
    type V = StateModel;

    open spec fn view(&self) -> StateModel {
        StateModel {
            home: self.home@,
            name: self.name@,
            populated: self.populated,
            compiled: self.compiled,
            device_source: self.device_source.deep_view(),
            message: self.message.deep_view(),
            artifact: self.artifact.deep_view(),
        }
    }
}

impl KernelState {
    /// Create the record used for a kernel that has no state file yet:
    /// nothing scaffolded, nothing compiled, no source recorded.
    pub fn fresh(home: String, name: String) -> (r: KernelState)
        ensures
            r@ == StateModel::fresh(home@, name@),
            r@.wf(),
    {
        KernelState {
            home: home,
            name: name,
            populated: false,
            compiled: false,
            device_source: None,
            message: None,
            artifact: None,
        }
    }

    /// Decide well-formedness executably, for checking a parsed record.
    pub fn wf_check(&self) -> (b: bool)
        ensures
            b == self@.wf(),
    {
        let compiled_iff_artifact = self.compiled == self.artifact.is_some();
        let compiled_has_message = !self.compiled || self.message.is_some();
        let no_source_means_bare = self.device_source.is_some() || (!self.populated
            && !self.compiled);
        compiled_iff_artifact && compiled_has_message && no_source_means_bare
    }

    /// Compare the stored device source against `new_device` and, where they
    /// differ (or no source is stored), switch the record to the new source,
    /// clearing scaffold, artifact, and message. Returns whether the record
    /// changed, that is whether the caller must clear the scaffold directory
    /// and persist the record.
    pub fn update_device(&mut self, new_device: String) -> (changed: bool)
        ensures
            changed == !old(self)@.source_matches(new_device@),
            changed ==> final(self)@ == old(self)@.invalidated(new_device@),
            !changed ==> final(self)@ == old(self)@,
            old(self)@.wf() ==> final(self)@.wf(),
    {
        let same = match &self.device_source {
            Some(d) => *d == new_device,
            None => false,
        };
        if same {
            return false;
        }
        self.device_source = Some(new_device);
        self.populated = false;
        self.compiled = false;
        self.message = None;
        self.artifact = None;
        true
    }

    /// Record that the scaffold directory now holds the template files and
    /// the device-source file.
    pub fn mark_populated(&mut self)
        ensures
            final(self)@ == (StateModel { populated: true, ..old(self)@ }),
            old(self)@.wf() && old(self)@.device_source is Some ==> final(self)@.wf(),
    {
        self.populated = true;
    }

    /// Record a successful build: the captured output and the artifact read
    /// from the toolchain's output path are cached together.
    pub fn record_success(&mut self, message: String, artifact: String)
        ensures
            final(self)@ == old(self)@.built(message@, artifact@),
            old(self)@.device_source is Some ==> final(self)@.wf(),
    {
        self.compiled = true;
        self.message = Some(message);
        self.artifact = Some(artifact);
    }

    /// Record a failed build: the diagnostic text is kept, the artifact is
    /// cleared, and the stored source stays, so a later call with the same
    /// source retries the build.
    pub fn record_failure(&mut self, message: String)
        ensures
            final(self)@ == old(self)@.failed(message@),
            final(self)@.device_source == old(self)@.device_source,
            old(self)@.wf() ==> final(self)@.wf(),
    {
        self.compiled = false;
        self.message = Some(message);
        self.artifact = None;
    }
}

} // verus!
