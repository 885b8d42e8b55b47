//! The publishing pipeline as a state machine.
//!
//! A [`Publisher`] is told the package name, its code units and the
//! instantiation values. It then names, one at a time, the registry call to
//! make ([`Publisher::next_call`]) and takes the registry's answer
//! ([`Publisher::record_reply`]). Code units go first, each as its artifact
//! file, its bundle file where it has one, then its own record; then the
//! template; then the instantiated package. The first failure ends the run.
use vstd::prelude::*;
use crate::chunking::{chunk_at, chunk_count, chunk_of, count_chunks, CHUNK_SIZE};
use crate::types::{
    copy_bytes, copy_texts, same_texts, texts, unit_names, CreateFileMetadataInput, DnaTemplate,
    PublishInstantiatedDnaInput, Timestamp, ZomeToPublish, ZomeWithCode,
};

verus! {

/// A remote procedure of the registry.
#[derive(Clone, Copy, Debug, PartialEq, Eq, Structural)]
pub enum Procedure {
    StoreChunk,
    CreateFileMetadata,
    PublishZome,
    PublishTemplate,
    PublishInstance,
    /// The query that lists the cells of an installed application.
    AppInfo,
}

impl Procedure {
    /// The service (zome) that serves this procedure.
    pub fn zome_name(&self) -> (r: &'static str)
        ensures
            (*self == Procedure::StoreChunk || *self == Procedure::CreateFileMetadata) ==> r@ == "file_storage"@,
            *self == Procedure::AppInfo ==> r@ == ""@,
            !(*self == Procedure::StoreChunk || *self == Procedure::CreateFileMetadata
                || *self == Procedure::AppInfo) ==> r@ == "compository"@,
    {
        match self {
            Procedure::StoreChunk => "file_storage",
            Procedure::CreateFileMetadata => "file_storage",
            Procedure::AppInfo => "",
            _ => "compository",
        }
    }

    /// The name of the function that this procedure calls.
    pub fn fn_name(&self) -> (r: &'static str)
        ensures
            *self == Procedure::StoreChunk ==> r@ == "create_file_chunk"@,
            *self == Procedure::CreateFileMetadata ==> r@ == "create_file_metadata"@,
            *self == Procedure::PublishZome ==> r@ == "publish_zome"@,
            *self == Procedure::PublishTemplate ==> r@ == "publish_dna_template"@,
            *self == Procedure::PublishInstance ==> r@ == "publish_instantiated_dna"@,
            *self == Procedure::AppInfo ==> r@ == "app_info"@,
    {
        match self {
            Procedure::StoreChunk => "create_file_chunk",
            Procedure::CreateFileMetadata => "create_file_metadata",
            Procedure::PublishZome => "publish_zome",
            Procedure::PublishTemplate => "publish_dna_template",
            Procedure::PublishInstance => "publish_instantiated_dna",
            Procedure::AppInfo => "app_info",
        }
    }
}

/// What came back from one registry call.
#[derive(Clone, Debug, PartialEq, Eq)]
pub enum Reply {
    /// The call succeeded and answered with a content hash.
    Hash(String),
    /// The call succeeded and answered with something that is not a content hash.
    Payload,
    /// The registry refused the call, with its message.
    Remote(String),
    /// An answer of another kind than a call result.
    Unexpected,
    /// The connection failed, with the transport's message.
    Transport(String),
}

/// Why a run stopped.
#[derive(Clone, Debug, PartialEq, Eq)]
pub enum PublishError {
    /// The connection to the registry could not be made or was lost.
    Connection(String),
    /// The registry refused a call. `unit` is the position of the code unit
    /// being published, if the call was made for one.
    Remote { procedure: Procedure, unit: Option<usize>, message: String },
    /// An answer did not have the shape that the call expects.
    ProtocolMismatch { procedure: Procedure, unit: Option<usize> },
    /// The installed application with this identifier does not exist.
    AppNotFound(String),
    /// No cell of the installed application runs the package with this hash.
    CellNotFound(String),
    /// The package holds no code unit: nothing is sent.
    EmptyPackage,
}

/// Where a run stands.
#[derive(Clone, Debug)]
pub enum Stage {
    /// Publishing code unit `unit` of the publisher.
    Units,
    /// Every code unit is published; the template is next.
    Template,
    /// The template is published; the instantiated package is next.
    Instance,
    /// Everything is published.
    Done,
    /// The run stopped on this error; nothing more is sent.
    Failed(PublishError),
}

/// The part of a code unit's publication in progress.
#[derive(Clone, Copy, Debug, PartialEq, Eq, Structural)]
pub enum FileStep {
    /// Storing the compiled artifact.
    Artifact,
    /// Storing the UI bundle.
    Bundle,
    /// Publishing the unit's own record.
    Record,
}

/// The values that a compiled, configured package is published with.
#[derive(Clone, Debug)]
pub struct InstanceParams {
    /// The package's own deterministic content hash.
    pub instantiated_dna_hash: String,
    pub uuid: String,
    pub properties: Vec<u8>,
}

/// One run of the publishing pipeline.
pub struct Publisher {
    pub package_name: String,
    pub units: Vec<ZomeWithCode>,
    pub instance: InstanceParams,
    pub stage: Stage,
    /// Position of the code unit in progress.
    pub unit: usize,
    pub file: FileStep,
    /// Hashes of the chunks of the current file stored so far, in order.
    pub chunk_hashes: Vec<String>,
    /// Hash of the current unit's stored artifact file.
    pub wasm_file: String,
    /// Hash of the current unit's stored bundle file.
    pub bundle_file: Option<String>,
    /// Hashes of the published code units, in the order of `units`.
    pub unit_hashes: Vec<String>,
    pub template_hash: String,
}

/// The name under which a file of this kind is stored.
pub open spec fn file_name(step: FileStep) -> Seq<char> {
    if step == FileStep::Artifact {
        "artifact"@
    } else {
        "bundle"@
    }
}

/// The media type with which a file of this kind is stored.
pub open spec fn file_type(step: FileStep) -> Seq<char> {
    if step == FileStep::Artifact {
        "wasm"@
    } else {
        "js"@
    }
}

/// The texts of an optional string.
pub open spec fn opt_text(s: Option<String>) -> Option<Seq<char>> {
    match s {
        Some(t) => Some(t@),
        None => None,
    }
}

impl Publisher {
    /// The content of the file being stored.
    pub open spec fn file_content(self) -> Seq<u8> {
        if self.unit < self.units@.len() {
            match self.file {
                FileStep::Artifact => self.units@[self.unit as int].wasm_code@,
                FileStep::Bundle => match self.units@[self.unit as int].components_bundle {
                    Some(b) => b@,
                    None => Seq::empty(),
                },
                FileStep::Record => Seq::empty(),
            }
        } else {
            Seq::empty()
        }
    }

    /// Some chunk of the current file is not stored yet.
    pub open spec fn chunks_left(self) -> bool {
        self.chunk_hashes@.len() < chunk_count(self.file_content().len(), CHUNK_SIZE as nat)
    }

    /// The run still has calls to make.
    pub open spec fn is_active(self) -> bool {
        self.stage is Units || self.stage is Template || self.stage is Instance
    }

    /// The procedure that the next call is made to, while the run is active.
    pub open spec fn procedure(self) -> Procedure {
        match self.stage {
            Stage::Units => if self.file == FileStep::Record {
                Procedure::PublishZome
            } else if self.chunks_left() {
                Procedure::StoreChunk
            } else {
                Procedure::CreateFileMetadata
            },
            Stage::Template => Procedure::PublishTemplate,
            _ => Procedure::PublishInstance,
        }
    }

    /// The position of the code unit that the next call is made for.
    pub open spec fn current_unit(self) -> Option<usize> {
        if self.stage is Units {
            Some(self.unit)
        } else {
            None
        }
    }

    /// The error that ends the run when the current call fails with `reply`.
    pub open spec fn failure(self, reply: Reply) -> PublishError {
        match reply {
            Reply::Remote(m) => PublishError::Remote {
                procedure: self.procedure(),
                unit: self.current_unit(),
                message: m,
            },
            Reply::Transport(m) => PublishError::Connection(m),
            _ => PublishError::ProtocolMismatch {
                procedure: self.procedure(),
                unit: self.current_unit(),
            },
        }
    }

    /// The state is consistent.
    pub open spec fn wf(self) -> bool {
        &&& self.units@.len() > 0
        &&& match self.stage {
            Stage::Units => {
                &&& self.unit < self.units@.len()
                &&& self.unit_hashes@.len() == self.unit
                &&& self.file == FileStep::Bundle
                    ==> self.units@[self.unit as int].components_bundle is Some
                &&& self.file != FileStep::Record
                    ==> self.chunk_hashes@.len() <= chunk_count(self.file_content().len(), CHUNK_SIZE as nat)
            },
            Stage::Failed(_) => true,
            _ => self.unit_hashes@.len() == self.units@.len(),
        }
    }

    /// `c` is the call that this state asks for at time `now`.
    pub open spec fn calls(self, c: Call, now: Timestamp) -> bool {
        match self.stage {
            Stage::Units => if self.file == FileStep::Record {
                c matches Call::PublishZome(z) && z.describes(
                    self.units@[self.unit as int],
                    self.wasm_file@,
                    opt_text(self.bundle_file),
                )
            } else if self.chunks_left() {
                c matches Call::StoreChunk(b) && b@ == chunk_of(
                    self.file_content(),
                    self.chunk_hashes@.len() as int,
                    CHUNK_SIZE as nat,
                )
            } else {
                c matches Call::CreateFile(m) && {
                    &&& m.name@ == file_name(self.file)
                    &&& m.file_type@ == file_type(self.file)
                    &&& m.size == self.file_content().len()
                    &&& m.last_modified == now
                    &&& same_texts(m.chunks_hashes@, self.chunk_hashes@)
                }
            },
            Stage::Template => c matches Call::PublishTemplate(t) && t.references(
                self.package_name@,
                unit_names(self.units@),
                texts(self.unit_hashes@),
            ),
            Stage::Instance => c matches Call::PublishInstance(i) && {
                &&& i.dna_template_hash@ == self.template_hash@
                &&& i.instantiated_dna_hash@ == self.instance.instantiated_dna_hash@
                &&& i.uuid@ == self.instance.uuid@
                &&& i.properties@ == self.instance.properties@
            },
            Stage::Done => c is Finished,
            Stage::Failed(_) => c is Stopped,
        }
    }

    /// `next` is this state after the current call answered with the hash `h`.
    pub open spec fn accepts(self, next: Publisher, h: String) -> bool {
        match self.stage {
            Stage::Units => if self.file == FileStep::Record {
                &&& next.unit_hashes@ == self.unit_hashes@.push(h)
                &&& next.chunk_hashes@.len() == 0
                &&& if self.unit + 1 < self.units@.len() {
                    &&& next.stage is Units
                    &&& next.unit == self.unit + 1
                    &&& next.file == FileStep::Artifact
                } else {
                    next.stage is Template
                }
            } else if self.chunks_left() {
                &&& next.stage is Units
                &&& next.unit == self.unit
                &&& next.file == self.file
                &&& next.chunk_hashes@ == self.chunk_hashes@.push(h)
                &&& next.wasm_file == self.wasm_file
                &&& next.bundle_file == self.bundle_file
                &&& next.unit_hashes == self.unit_hashes
            } else {
                &&& next.stage is Units
                &&& next.unit == self.unit
                &&& next.chunk_hashes@.len() == 0
                &&& next.unit_hashes == self.unit_hashes
                &&& if self.file == FileStep::Artifact {
                    &&& next.wasm_file == h
                    &&& next.bundle_file is None
                    &&& next.file == if self.units@[self.unit as int].components_bundle is Some {
                        FileStep::Bundle
                    } else {
                        FileStep::Record
                    }
                } else {
                    &&& next.wasm_file == self.wasm_file
                    &&& next.bundle_file == Some(h)
                    &&& next.file == FileStep::Record
                }
            },
            Stage::Template => {
                &&& next.stage is Instance
                &&& next.template_hash == h
                &&& next.unit_hashes == self.unit_hashes
            },
            _ => next.stage is Done,
        }
    }

    /// `next` is this state after the current call answered with `reply`.
    pub open spec fn answers(self, next: Publisher, reply: Reply) -> bool {
        &&& next.package_name == self.package_name
        &&& next.units == self.units
        &&& next.instance == self.instance
        &&& match reply {
            Reply::Hash(h) => self.accepts(next, h),
            Reply::Payload => if self.stage is Instance {
                next.stage is Done
            } else {
                next.stage == Stage::Failed(self.failure(reply))
            },
            _ => next.stage == Stage::Failed(self.failure(reply)),
        }
    }
}

impl Publisher {
    /// A run that publishes `units` as the package `package_name`, then the
    /// instantiated package described by `instance`. An empty package is
    /// refused before anything is sent.
    pub fn new(package_name: String, units: Vec<ZomeWithCode>, instance: InstanceParams) -> (r: Result<
        Publisher,
        PublishError,
    >)
        ensures
            units@.len() == 0 <==> r is Err,
            r matches Err(e) ==> e == PublishError::EmptyPackage,
            r matches Ok(p) ==> {
                &&& p.wf()
                &&& p.package_name == package_name
                &&& p.units == units
                &&& p.instance == instance
                &&& p.stage is Units
                &&& p.unit == 0
                &&& p.file == FileStep::Artifact
                &&& p.chunk_hashes@.len() == 0
                &&& p.unit_hashes@.len() == 0
            },
    {
        if units.len() == 0 {
            return Err(PublishError::EmptyPackage);
        }
        Ok(Publisher {
            package_name,
            units,
            instance,
            stage: Stage::Units,
            unit: 0,
            file: FileStep::Artifact,
            chunk_hashes: Vec::new(),
            wasm_file: String::new(),
            bundle_file: None,
            unit_hashes: Vec::new(),
            template_hash: String::new(),
        })
    }

    /// The content of the file being stored.
    fn content(&self) -> (r: &[u8])
        requires
            self.wf(),
            self.stage is Units,
            self.file != FileStep::Record,
        ensures
            r@ == self.file_content(),
    {
        let u = &self.units[self.unit];
        if self.file == FileStep::Artifact {
            u.wasm_code.as_slice()
        } else {
            match &u.components_bundle {
                Some(b) => b.as_slice(),
                None => u.wasm_code.as_slice(),
            }
        }
    }

    /// Some chunk of the current file is not stored yet.
    fn has_chunks_left(&self) -> (r: bool)
        requires
            self.wf(),
            self.stage is Units,
            self.file != FileStep::Record,
        ensures
            r == self.chunks_left(),
    {
        self.chunk_hashes.len() < count_chunks(self.content().len(), CHUNK_SIZE)
    }

    /// The registry call that the run asks for now; `now` is the time that a
    /// file record is stamped with.
    pub fn next_call(&self, now: Timestamp) -> (c: Call)
        requires
            self.wf(),
        ensures
            self.calls(c, now),
    {
        match &self.stage {
            Stage::Units => {
                if self.file == FileStep::Record {
                    Call::PublishZome(
                        ZomeToPublish::for_unit(&self.units[self.unit], &self.wasm_file, &self.bundle_file),
                    )
                } else if self.has_chunks_left() {
                    Call::StoreChunk(chunk_at(self.content(), self.chunk_hashes.len(), CHUNK_SIZE))
                } else {
                    let artifact = self.file == FileStep::Artifact;
                    Call::CreateFile(CreateFileMetadataInput {
                        name: if artifact { "artifact".to_owned() } else { "bundle".to_owned() },
                        last_modified: now,
                        size: self.content().len(),
                        file_type: if artifact { "wasm".to_owned() } else { "js".to_owned() },
                        chunks_hashes: copy_texts(&self.chunk_hashes),
                    })
                }
            },
            Stage::Template => Call::PublishTemplate(
                DnaTemplate::from_units(&self.package_name, &self.units, &self.unit_hashes),
            ),
            Stage::Instance => Call::PublishInstance(PublishInstantiatedDnaInput {
                dna_template_hash: self.template_hash.clone(),
                instantiated_dna_hash: self.instance.instantiated_dna_hash.clone(),
                uuid: self.instance.uuid.clone(),
                properties: copy_bytes(&self.instance.properties),
            }),
            Stage::Done => Call::Finished,
            Stage::Failed(_) => Call::Stopped,
        }
    }

    /// The procedure that the next call is made to.
    pub fn current_procedure(&self) -> (r: Procedure)
        requires
            self.wf(),
        ensures
            r == self.procedure(),
    {
        match &self.stage {
            Stage::Units => {
                if self.file == FileStep::Record {
                    Procedure::PublishZome
                } else if self.has_chunks_left() {
                    Procedure::StoreChunk
                } else {
                    Procedure::CreateFileMetadata
                }
            },
            Stage::Template => Procedure::PublishTemplate,
            _ => Procedure::PublishInstance,
        }
    }

    /// Takes the answer to the call that [`Publisher::next_call`] asked for.
    pub fn record_reply(&mut self, reply: Reply)
        requires
            old(self).wf(),
            old(self).is_active(),
        ensures
            final(self).wf(),
            old(self).answers(*final(self), reply),
    {
        let procedure = self.current_procedure();
        let in_units = matches!(self.stage, Stage::Units);
        let unit: Option<usize> = if in_units { Some(self.unit) } else { None };
        match reply {
            Reply::Hash(h) => self.accept(h),
            Reply::Payload => {
                if matches!(self.stage, Stage::Instance) {
                    self.stage = Stage::Done;
                } else {
                    self.stage = Stage::Failed(PublishError::ProtocolMismatch { procedure, unit });
                }
            },
            Reply::Remote(message) => {
                self.stage = Stage::Failed(PublishError::Remote { procedure, unit, message });
            },
            Reply::Unexpected => {
                self.stage = Stage::Failed(PublishError::ProtocolMismatch { procedure, unit });
            },
            Reply::Transport(message) => {
                self.stage = Stage::Failed(PublishError::Connection(message));
            },
        }
    }

    /// Takes the hash that the current call answered with.
    fn accept(&mut self, h: String)
        requires
            old(self).wf(),
            old(self).is_active(),
        ensures
            final(self).wf(),
            old(self).accepts(*final(self), h),
            final(self).package_name == old(self).package_name,
            final(self).units == old(self).units,
            final(self).instance == old(self).instance,
    {
        match &self.stage {
            Stage::Units => {
                if self.file == FileStep::Record {
                    self.unit_hashes.push(h);
                    self.chunk_hashes = Vec::new();
                    self.bundle_file = None;
                    if self.unit < self.units.len() - 1 {
                        self.unit = self.unit + 1;
                        self.file = FileStep::Artifact;
                    } else {
                        self.stage = Stage::Template;
                    }
                } else if self.has_chunks_left() {
                    self.chunk_hashes.push(h);
                } else {
                    self.chunk_hashes = Vec::new();
                    if self.file == FileStep::Artifact {
                        self.wasm_file = h;
                        self.bundle_file = None;
                        if self.units[self.unit].components_bundle.is_some() {
                            self.file = FileStep::Bundle;
                        } else {
                            self.file = FileStep::Record;
                        }
                    } else {
                        self.bundle_file = Some(h);
                        self.file = FileStep::Record;
                    }
                }
            },
            Stage::Template => {
                self.template_hash = h;
                self.stage = Stage::Instance;
            },
            _ => {
                self.stage = Stage::Done;
            },
        }
    }
}

/// The next registry call, or the end of the run.
#[derive(Clone, Debug)]
pub enum Call {
    StoreChunk(Vec<u8>),
    CreateFile(CreateFileMetadataInput),
    PublishZome(ZomeToPublish),
    PublishTemplate(DnaTemplate),
    PublishInstance(PublishInstantiatedDnaInput),
    /// Everything is published.
    Finished,
    /// The run failed; its error is in the publisher's stage.
    Stopped,
}

} // verus!
