//! The session orchestrator's declarative side: the project config and the
//! fixed sequence of steps that initializes a session.
//!
//! Initialization resolves or creates the assistant identity, uploads the
//! instructions file if one is present (absence is not an error, the step
//! is simply skipped), and syncs each configured file bundle without force.
//! The caller walks the plan and performs each step's remote work.

use vstd::prelude::*;

use crate::error::Error;
use crate::identity::CreateConfig;

verus! {

/// One configured bundle of local files to attach to the assistant.
#[derive(Debug)]
pub struct FileBundle {
    pub bundle_name: String,
    pub src_dir: String,
    pub dst_ext: String,
    pub src_globs: Vec<String>,
}

/// The declarative project config.
#[derive(Debug)]
pub struct Config {
    /// The assistant's name: its uniqueness key within the account.
    pub name: String,
    /// The model the assistant runs on.
    pub model: String,
    /// Path of the instructions file, relative to the project directory.
    pub instructions_file: String,
    pub file_bundles: Vec<FileBundle>,
}

impl<'a> vstd::std_specs::convert::FromSpecImpl<&'a Config> for CreateConfig {
    open spec fn obeys_from_spec() -> bool {
        true
    }

    open spec fn from_spec(config: &'a Config) -> CreateConfig {
        CreateConfig { name: config.name, model: config.model }
    }
}

impl<'a> From<&'a Config> for CreateConfig {
    fn from(config: &'a Config) -> (r: Self) {
        CreateConfig { name: config.name.clone(), model: config.model.clone() }
    }
}

/// One step of session initialization.
#[derive(Debug)]
pub enum InitOp {
    /// Resolve or create the assistant identity by name.
    ResolveIdentity { name: String, model: String, recreate: bool },
    /// Upload the instructions file's content.
    UploadInstructions { path: String },
    /// Sync every file of every configured bundle.
    SyncBundles { force: bool },
}

/// The view of an initialization step.
pub enum InitOpV {
    ResolveIdentity { name: Seq<char>, model: Seq<char>, recreate: bool },
    UploadInstructions { path: Seq<char> },
    SyncBundles { force: bool },
}

impl View for InitOp {
    type V = InitOpV;

    open spec fn view(&self) -> InitOpV {
        match self {
            InitOp::ResolveIdentity { name, model, recreate } => InitOpV::ResolveIdentity {
                name: name@,
                model: model@,
                recreate: *recreate,
            },
            InitOp::UploadInstructions { path } => InitOpV::UploadInstructions { path: path@ },
            InitOp::SyncBundles { force } => InitOpV::SyncBundles { force: *force },
        }
    }
}

impl DeepView for InitOp {
    type V = InitOpV;

    open spec fn deep_view(&self) -> InitOpV {
        self@
    }
}

/// The steps that initialize a session, in order: resolve the identity,
/// upload the instructions if the file is present, then sync the bundles
/// without force.
pub open spec fn init_plan_spec(
    name: Seq<char>,
    model: Seq<char>,
    instructions_file: Seq<char>,
    recreate: bool,
    instructions_present: bool,
) -> Seq<InitOpV> {
    seq![InitOpV::ResolveIdentity { name, model, recreate }] + (if instructions_present {
        seq![InitOpV::UploadInstructions { path: instructions_file }]
    } else {
        Seq::empty()
    }) + seq![InitOpV::SyncBundles { force: false }]
}

/// Lay the initialization steps out for a given config, recreation flag,
/// and presence of the instructions file.
pub fn init_plan(config: &Config, recreate: bool, instructions_present: bool) -> (r: Vec<InitOp>)
    ensures
        r.deep_view() == init_plan_spec(
            config.name@,
            config.model@,
            config.instructions_file@,
            recreate,
            instructions_present,
        ),
{
    let mut plan: Vec<InitOp> = Vec::new();
    plan.push(InitOp::ResolveIdentity {
        name: config.name.clone(),
        model: config.model.clone(),
        recreate,
    });
    if instructions_present {
        plan.push(InitOp::UploadInstructions { path: config.instructions_file.clone() });
    }
    plan.push(InitOp::SyncBundles { force: false });
    proof {
        assert(plan.deep_view() =~= init_plan_spec(
            config.name@,
            config.model@,
            config.instructions_file@,
            recreate,
            instructions_present,
        ));
    }
    plan
}

/// Check once, at startup, that the environment supplied the API
/// credential: its absence is an error, not a panic, and it is fatal to
/// the process.
pub fn require_credential(key_present: bool) -> (r: Result<(), Error>)
    ensures
        r is Ok <==> key_present,
        !key_present ==> (r matches Err(e) && e is Credential),
{
    if key_present {
        Ok(())
    } else {
        Err(Error::Credential)
    }
}

} // verus!
