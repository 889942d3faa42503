//! Resolving a repository's HEAD reference to the commit it points at.
//!
//! The repository lives on disk and is read through the version-control
//! library, so what each step returns depends on the repository's state; the
//! verified part is the chain itself and the classification of its failures:
//! an error from the library is passed on as `Underlying`, while an object
//! that peels to something other than a commit is reported as the distinct
//! `NotACommit`.

use vstd::prelude::*;

verus! {

#[verifier::external_type_specification]
#[verifier::external_body]
pub struct ExRepository(git2::Repository);

#[verifier::external_type_specification]
#[verifier::external_body]
pub struct ExReference<'repo>(git2::Reference<'repo>);

#[verifier::external_type_specification]
#[verifier::external_body]
pub struct ExObject<'repo>(git2::Object<'repo>);

#[verifier::external_type_specification]
#[verifier::external_body]
pub struct ExCommit<'repo>(git2::Commit<'repo>);

#[verifier::external_type_specification]
#[verifier::external_body]
pub struct ExGitError(git2::Error);

/// Why HEAD could not be resolved to a commit.
#[derive(Debug)]
pub enum ResolutionError {
    /// The underlying version-control library reported an error while
    /// looking up, resolving or peeling HEAD (missing or unborn HEAD, a
    /// corrupt repository, an I/O failure), passed on verbatim.
    Underlying(git2::Error),
    /// HEAD peeled to an object that is not a commit.
    NotACommit,
}

impl ResolutionError {
    pub fn is_underlying(&self) -> (r: bool)
        ensures
            r == (self is Underlying),
    {
        match self {
            ResolutionError::Underlying(_) => true,
            ResolutionError::NotACommit => false,
        }
    }

    pub fn is_not_a_commit(&self) -> (r: bool)
        ensures
            r == (self is NotACommit),
    {
        match self {
            ResolutionError::Underlying(_) => false,
            ResolutionError::NotACommit => true,
        }
    }
}

/// Relies on git2's `Repository::head`: looks up the reference named HEAD;
/// what comes back depends on the repository on disk.
#[verifier::external_body]
fn repo_head<'r>(repo: &'r git2::Repository) -> Result<git2::Reference<'r>, git2::Error> {
    repo.head()
}

/// Relies on git2's `Reference::resolve`: follows symbolic indirection to a
/// direct reference; what comes back depends on the repository on disk.
#[verifier::external_body]
fn reference_resolve<'r>(
    reference: &git2::Reference<'r>,
) -> Result<git2::Reference<'r>, git2::Error> {
    reference.resolve()
}

/// Relies on git2's `Reference::peel` with the commit object type:
/// dereferences the reference's target through any intermediate tag objects;
/// what comes back depends on the repository on disk.
#[verifier::external_body]
fn reference_peel_to_commit<'r>(
    reference: &git2::Reference<'r>,
) -> Result<git2::Object<'r>, git2::Error> {
    reference.peel(git2::ObjectType::Commit)
}

/// Relies on git2's `Object::into_commit`: returns the commit the object is,
/// or gives the object back when it is not a commit.
#[verifier::external_body]
fn object_into_commit<'r>(
    object: git2::Object<'r>,
) -> Result<git2::Commit<'r>, git2::Object<'r>> {
    object.into_commit()
}

/// Classify the outcome of narrowing a peeled object down to a commit: a
/// commit is passed through unchanged, and anything else is reported as the
/// distinct `NotACommit` error rather than an underlying library error.
pub fn commit_or_type_mismatch<'r>(
    peeled: Result<git2::Commit<'r>, git2::Object<'r>>,
) -> (r: Result<git2::Commit<'r>, ResolutionError>)
    ensures
        r is Ok <==> peeled is Ok,
        peeled matches Ok(c) ==> (r matches Ok(rc) && rc == c),
        peeled is Err ==> (r matches Err(e) && e is NotACommit),
{
    match peeled {
        Ok(commit) => Ok(commit),
        Err(_) => Err(ResolutionError::NotACommit),
    }
}

/// Look up the repository's HEAD reference, resolve any symbolic
/// indirection, and peel the target down to a commit. A read-only operation:
/// the returned commit borrows from the repository. Errors from the
/// underlying library are passed on as `Underlying`; an object that is not a
/// commit is reported as `NotACommit`.
pub fn resolve_head_commit<'r>(
    repo: &'r git2::Repository,
) -> (r: Result<git2::Commit<'r>, ResolutionError>)
    ensures
        r matches Err(e) ==> e is Underlying || e is NotACommit,
{
    let head = match repo_head(repo) {
        Ok(reference) => reference,
        Err(e) => {
            return Err(ResolutionError::Underlying(e));
        },
    };
    let direct = match reference_resolve(&head) {
        Ok(reference) => reference,
        Err(e) => {
            return Err(ResolutionError::Underlying(e));
        },
    };
    let object = match reference_peel_to_commit(&direct) {
        Ok(object) => object,
        Err(e) => {
            return Err(ResolutionError::Underlying(e));
        },
    };
    commit_or_type_mismatch(object_into_commit(object))
}

} // verus!
