//! The closed set of failures that schema compilation reports.
use vstd::prelude::*;

verus! {

/// What is wrong with a malformed field of the document.
#[derive(Debug, Clone, Copy, PartialEq, Eq, Structural)]
pub enum InstructionProblem {
    NotAString,
    NotAnObject,
    NotAHomogeneousArray,
    CouldNotDetermineRepoType,
    MaintainerOrHomepageRequired,
}

pub open spec fn problem_text(p: InstructionProblem) -> Seq<char> {
    match p {
        InstructionProblem::NotAString => "could not be parsed as a String"@,
        InstructionProblem::NotAnObject => "could not be parsed as an Object"@,
        InstructionProblem::NotAHomogeneousArray => "could not be parsed as a homogenous Array"@,
        InstructionProblem::CouldNotDetermineRepoType => "could not determine repo type (eg. git)"@,
        InstructionProblem::MaintainerOrHomepageRequired => "meta.maintainer and/or meta.homepage is required"@,
    }
}

impl InstructionProblem {
    /// A human-readable description of the problem.
    pub fn message(&self) -> (r: &'static str)
        ensures
            r@ == problem_text(*self),
    {
        match self {
            InstructionProblem::NotAString => "could not be parsed as a String",
            InstructionProblem::NotAnObject => "could not be parsed as an Object",
            InstructionProblem::NotAHomogeneousArray => "could not be parsed as a homogenous Array",
            InstructionProblem::CouldNotDetermineRepoType => "could not determine repo type (eg. git)",
            InstructionProblem::MaintainerOrHomepageRequired => "meta.maintainer and/or meta.homepage is required",
        }
    }
}

/// Why a document could not be compiled.
#[derive(Debug, PartialEq, Eq)]
pub enum SchemaParsingError {
    /// A stage of the pipeline that is not implemented yet.
    Generic(&'static str),
    /// The document carries no configuration header at all.
    MissingOofInstruction,
    /// A named field exists in the wrong shape or breaks a cross-field rule.
    MalformedOofInstruction { field_name: String, problem: InstructionProblem },
    /// The declared schema type is not known.
    UnsupportedSchemaType(String),
    /// The schema type is known, its declared version is not.
    UnsupportedSchemaVersion { schema_type: String, requested_version: String },
    /// An inheritance declaration names a source that the document does not declare.
    ExtendingNonExistantRepo(String),
}

/// The mathematical value of a `SchemaParsingError`.
pub enum ErrorView {
    Generic(Seq<char>),
    MissingOofInstruction,
    MalformedOofInstruction { field_name: Seq<char>, problem: InstructionProblem },
    UnsupportedSchemaType(Seq<char>),
    UnsupportedSchemaVersion { schema_type: Seq<char>, requested_version: Seq<char> },
    ExtendingNonExistantRepo(Seq<char>),
}

impl View for SchemaParsingError {
    type V = ErrorView;

    open spec fn view(&self) -> ErrorView {
        match self {
            SchemaParsingError::Generic(t) => ErrorView::Generic(t@),
            SchemaParsingError::MissingOofInstruction => ErrorView::MissingOofInstruction,
            SchemaParsingError::MalformedOofInstruction { field_name, problem } => {
                ErrorView::MalformedOofInstruction { field_name: field_name@, problem: *problem }
            },
            SchemaParsingError::UnsupportedSchemaType(t) => ErrorView::UnsupportedSchemaType(t@),
            SchemaParsingError::UnsupportedSchemaVersion { schema_type, requested_version } => {
                ErrorView::UnsupportedSchemaVersion {
                    schema_type: schema_type@,
                    requested_version: requested_version@,
                }
            },
            SchemaParsingError::ExtendingNonExistantRepo(r) => ErrorView::ExtendingNonExistantRepo(r@),
        }
    }
}

/// The error value for a malformed field.
pub open spec fn malformed(field_name: Seq<char>, problem: InstructionProblem) -> ErrorView {
    ErrorView::MalformedOofInstruction { field_name, problem }
}

/// The mathematical value of a result whose error is a `SchemaParsingError`.
pub open spec fn result_view<T: View>(r: Result<T, SchemaParsingError>) -> Result<T::V, ErrorView> {
    match r {
        Ok(v) => Ok(v@),
        Err(e) => Err(e@),
    }
}

/// Builds the error for a malformed field.
pub fn malformed_error(field_name: String, problem: InstructionProblem) -> (e: SchemaParsingError)
    ensures
        e@ == malformed(field_name@, problem),
{
    SchemaParsingError::MalformedOofInstruction { field_name, problem }
}

} // verus!
