//! The order of work when the service is built together with its clients:
//! compile the service, let it emit its schema, generate the client from it.
//! Each stage is outside work; what follows a stage is decided here.

use vstd::prelude::*;

verus! {

/// One stage of the build.
#[derive(Debug, Clone, Copy, PartialEq, Eq, Structural)]
pub enum Stage {
    /// Compile the service. It succeeds if the compiler exits successfully.
    Compile,
    /// Run the service for a moment so that it writes its schema file. It
    /// succeeds if the schema file exists afterwards.
    EmitSchema,
    /// Generate the client from the schema file. It succeeds if the
    /// generator exits successfully.
    GenerateClient,
}

/// How a build ended.
#[derive(Debug, Clone, Copy, PartialEq, Eq, Structural)]
pub enum Report {
    /// The service did not compile.
    BuildFailed,
    /// The service ran but left no schema file.
    SchemaNotGenerated,
    /// The client was generated.
    ClientGenerated,
    /// The schema is there but the client could not be generated from it.
    ClientFailed,
}

/// What is to be done after a stage.
#[derive(Debug, Clone, Copy, PartialEq, Eq, Structural)]
pub enum Next {
    /// Go on with this stage.
    Run(Stage),
    /// End the build with this report.
    Stop(Report),
}

impl Stage {
    /// The place of a stage in the order of the build.
    pub open spec fn position(self) -> nat {
        match self {
            Stage::Compile => 0,
            Stage::EmitSchema => 1,
            Stage::GenerateClient => 2,
        }
    }

    /// What follows this stage, given whether it succeeded.
    pub open spec fn followed_by(self, succeeded: bool) -> Next {
        match (self, succeeded) {
            (Stage::Compile, true) => Next::Run(Stage::EmitSchema),
            (Stage::Compile, false) => Next::Stop(Report::BuildFailed),
            (Stage::EmitSchema, true) => Next::Run(Stage::GenerateClient),
            (Stage::EmitSchema, false) => Next::Stop(Report::SchemaNotGenerated),
            (Stage::GenerateClient, true) => Next::Stop(Report::ClientGenerated),
            (Stage::GenerateClient, false) => Next::Stop(Report::ClientFailed),
        }
    }

    /// The stage that a build starts with.
    pub fn first() -> (stage: Stage)
        ensures
            stage == Stage::Compile,
    {
        Stage::Compile
    }

    /// Decides what follows this stage, given whether it succeeded.
    pub fn next(self, succeeded: bool) -> (next: Next)
        ensures
            next == self.followed_by(succeeded),
    {
        match self {
            Stage::Compile => if succeeded {
                Next::Run(Stage::EmitSchema)
            } else {
                Next::Stop(Report::BuildFailed)
            },
            Stage::EmitSchema => if succeeded {
                Next::Run(Stage::GenerateClient)
            } else {
                Next::Stop(Report::SchemaNotGenerated)
            },
            Stage::GenerateClient => if succeeded {
                Next::Stop(Report::ClientGenerated)
            } else {
                Next::Stop(Report::ClientFailed)
            },
        }
    }
}

impl Report {
    /// Whether the build went through all its stages, so that the service is
    /// ready to be run: it did once the client generator has run, whether or
    /// not a client came of it.
    pub open spec fn is_complete(self) -> bool {
        self == Report::ClientGenerated || self == Report::ClientFailed
    }

    /// Whether the build went through all its stages.
    pub fn complete(self) -> (complete: bool)
        ensures
            complete == self.is_complete(),
    {
        match self {
            Report::ClientGenerated | Report::ClientFailed => true,
            Report::BuildFailed | Report::SchemaNotGenerated => false,
        }
    }
}

/// The stages run in their order, none twice: a stage is only ever followed
/// by the one next in place, and only if it succeeded.
pub proof fn stages_run_in_order(stage: Stage, succeeded: bool)
    ensures
        stage.followed_by(succeeded) matches Next::Run(next) ==> succeeded && next.position()
            == stage.position() + 1,
{
}

/// A stage that fails ends the build, and a build that ends before the
/// client generator has run is not complete.
pub proof fn failure_ends_the_build(stage: Stage)
    ensures
        stage.followed_by(false) is Stop,
        stage != Stage::GenerateClient ==> !stage.followed_by(false)->Stop_0.is_complete(),
{
}

} // verus!
