//! Loading a configuration document: resolve the locator, read the file, parse
//! the text, in that order, and stop at the first stage that fails.
//!
//! A load moves from its start through resolving, reading and parsing to a
//! document; each of the three stages may instead end the load with its own
//! failure, and no stage is tried a second time.
//!
//! The host supplies the two collaborators that touch the installation: a
//! resolver from locators to paths, and a reader from paths to file contents.
//! Each is taken as a function that can be called once, so a load cannot ask
//! either of them again.

use crate::document::{parse, parse_stage, toml_parse};
use crate::error::{result_view, BridgeError, BridgeErrorView};
use crate::locator::{ResolvedPath, ResourceLocator};
use vstd::prelude::*;

verus! {

/// How the host's reader failed.
#[derive(Debug, PartialEq, Eq)]
pub enum ReadFailure {
    /// The file does not exist or may not be opened; nothing was read.
    Open { reason: String },
    /// The file was opened, and reading it to its end failed.
    Read { reason: String },
}

impl Clone for ReadFailure {
    fn clone(&self) -> (out: Self)
        ensures
            out == *self,
    {
        match self {
            ReadFailure::Open { reason } => ReadFailure::Open { reason: reason.clone() },
            ReadFailure::Read { reason } => ReadFailure::Read { reason: reason.clone() },
        }
    }
}

/// The result of the resolving stage for a given answer of the resolver: the
/// path, or a `PathResolution` failure with the host's reason.
pub open spec fn resolve_stage(answer: Result<ResolvedPath, String>) -> Result<
    ResolvedPath,
    BridgeErrorView,
> {
    match answer {
        Ok(resolved) => Ok(resolved),
        Err(reason) => Err(BridgeErrorView::PathResolution { reason: reason@ }),
    }
}

/// The result of the reading stage for a given answer of the reader on `path`:
/// the content; or `Open` with the path and the cause, where the file could not
/// be opened; or `Read` with the cause, where reading it failed.
pub open spec fn read_stage(path: Seq<char>, answer: Result<String, ReadFailure>) -> Result<
    String,
    BridgeErrorView,
> {
    match answer {
        Ok(text) => Ok(text),
        Err(ReadFailure::Open { reason }) => Err(
            BridgeErrorView::Open { path: path, reason: reason@ },
        ),
        Err(ReadFailure::Read { reason }) => Err(BridgeErrorView::Read { reason: reason@ }),
    }
}

/// What a load returns once the reader has answered on `path`: the reader's
/// failure as it is, else whatever parsing the content gives.
pub open spec fn after_read(path: Seq<char>, answer: Result<String, ReadFailure>) -> Result<
    toml::Value,
    BridgeErrorView,
> {
    match read_stage(path, answer) {
        Ok(text) => parse_stage(toml_parse(text@)),
        Err(failure) => Err(failure),
    }
}

/// `out` is what a load of `locator` returns with these collaborators: the
/// resolver answered; if it refused, `out` is that failure and the reader was
/// not asked; else the reader answered on the resolved path, and `out` is what
/// follows from its answer.
pub open spec fn loaded<R, F>(
    locator: &ResourceLocator,
    resolver: R,
    reader: F,
    out: Result<toml::Value, BridgeError>,
) -> bool where
    R: FnOnce(&ResourceLocator) -> Result<ResolvedPath, String>,
    F: FnOnce(&ResolvedPath) -> Result<String, ReadFailure>,
 {
    exists|resolution: Result<ResolvedPath, String>|
        #[trigger] call_ensures(resolver, (locator,), resolution) && match resolution {
            Err(reason) => result_view(out) == Err::<toml::Value, BridgeErrorView>(
                BridgeErrorView::PathResolution { reason: reason@ },
            ),
            Ok(resolved) => exists|answer: Result<String, ReadFailure>|
                #[trigger] call_ensures(reader, (&resolved,), answer) && result_view(out)
                    == after_read(resolved@, answer),
        }
}

/// Classifies the resolver's answer: a path passes through, a refusal becomes a
/// `PathResolution` failure with the host's reason.
pub fn classify_resolution(answer: Result<ResolvedPath, String>) -> (out: Result<
    ResolvedPath,
    BridgeError,
>)
    ensures
        result_view(out) == resolve_stage(answer),
{
    match answer {
        Ok(resolved) => Ok(resolved),
        Err(reason) => Err(BridgeError::PathResolution { reason }),
    }
}

/// Classifies the reader's answer on `resolved`: the content passes through; a
/// failure to open becomes `Open` with the path and the cause; a failure while
/// reading becomes `Read` with the cause, and whatever had been read is gone.
pub fn classify_read(resolved: &ResolvedPath, answer: Result<String, ReadFailure>) -> (out: Result<
    String,
    BridgeError,
>)
    ensures
        result_view(out) == read_stage(resolved@, answer),
{
    match answer {
        Ok(text) => Ok(text),
        Err(ReadFailure::Open { reason }) => Err(
            BridgeError::Open { path: resolved.path.clone(), reason },
        ),
        Err(ReadFailure::Read { reason }) => Err(BridgeError::Read { reason }),
    }
}

/// Resolves `locator` through the host's resolver: asks it once and classifies
/// its answer.
pub fn resolve<R>(locator: &ResourceLocator, resolver: R) -> (out: Result<
    ResolvedPath,
    BridgeError,
>) where R: FnOnce(&ResourceLocator) -> Result<ResolvedPath, String>
    requires
        call_requires(resolver, (locator,)),
    ensures
        exists|answer: Result<ResolvedPath, String>|
            #[trigger] call_ensures(resolver, (locator,), answer) && result_view(out)
                == resolve_stage(answer),
{
    let answer = resolver(locator);
    classify_resolution(answer)
}

/// Reads the whole file at `resolved` through the host's reader: asks it once
/// and classifies its answer.
pub fn read_all<F>(resolved: &ResolvedPath, reader: F) -> (out: Result<String, BridgeError>) where
    F: FnOnce(&ResolvedPath) -> Result<String, ReadFailure>,

    requires
        call_requires(reader, (resolved,)),
    ensures
        exists|answer: Result<String, ReadFailure>|
            #[trigger] call_ensures(reader, (resolved,), answer) && result_view(out)
                == read_stage(resolved@, answer),
{
    let answer = reader(resolved);
    classify_read(resolved, answer)
}

/// Loads the document that `locator` names: resolve, read, parse, in strict
/// sequence. The first stage that fails ends the load, and its failure is
/// returned as that stage classified it. Nothing is kept between loads.
///
/// The reader need only accept the paths that the resolver gives for this
/// locator, so it cannot be asked before the resolver has answered, nor after
/// the resolver has refused.
pub fn load<R, F>(locator: &ResourceLocator, resolver: R, reader: F) -> (out: Result<
    toml::Value,
    BridgeError,
>) where
    R: FnOnce(&ResourceLocator) -> Result<ResolvedPath, String>,
    F: FnOnce(&ResolvedPath) -> Result<String, ReadFailure>,

    requires
        call_requires(resolver, (locator,)),
        forall|resolved: ResolvedPath|
            call_ensures(resolver, (locator,), Ok::<ResolvedPath, String>(resolved))
                ==> call_requires(reader, (&resolved,)),
    ensures
        loaded(locator, resolver, reader, out),
{
    let resolved = match resolve(locator, resolver) {
        Ok(resolved) => resolved,
        Err(failure) => {
            return Err(failure);
        },
    };
    let text = match read_all(&resolved, reader) {
        Ok(text) => text,
        Err(failure) => {
            return Err(failure);
        },
    };
    parse(text.as_str())
}

/// Whether two answers of a resolver say the same: the same path, or a refusal
/// for the same reason.
pub open spec fn same_resolution(
    first: Result<ResolvedPath, String>,
    second: Result<ResolvedPath, String>,
) -> bool {
    match (first, second) {
        (Ok(a), Ok(b)) => a@ == b@,
        (Err(a), Err(b)) => a@ == b@,
        _ => false,
    }
}

/// Whether two answers of a reader say the same: the same content, or the same
/// kind of failure for the same reason.
pub open spec fn same_content(
    first: Result<String, ReadFailure>,
    second: Result<String, ReadFailure>,
) -> bool {
    match (first, second) {
        (Ok(a), Ok(b)) => a@ == b@,
        (Err(ReadFailure::Open { reason: a }), Err(ReadFailure::Open { reason: b })) => a@ == b@,
        (Err(ReadFailure::Read { reason: a }), Err(ReadFailure::Read { reason: b })) => a@ == b@,
        _ => false,
    }
}

/// A load fails only with the failure of one of its stages: `PathResolution`
/// from resolving, `Open` or `Read` from reading, `Parse` from parsing.
pub proof fn lemma_load_fails_by_stage<R, F>(
    locator: &ResourceLocator,
    resolver: R,
    reader: F,
    out: Result<toml::Value, BridgeError>,
) where
    R: FnOnce(&ResourceLocator) -> Result<ResolvedPath, String>,
    F: FnOnce(&ResolvedPath) -> Result<String, ReadFailure>,

    requires
        loaded(locator, resolver, reader, out),
        out is Err,
    ensures
        out->Err_0@ is PathResolution || out->Err_0@ is Open || out->Err_0@ is Read
            || out->Err_0@ is Parse,
{
}

/// Where the host cannot resolve the locator, the load fails with
/// `PathResolution`, whatever the reader would have said: no file is touched.
pub proof fn lemma_unresolved_locator_ends_load<R, F>(
    locator: &ResourceLocator,
    resolver: R,
    reader: F,
    out: Result<toml::Value, BridgeError>,
) where
    R: FnOnce(&ResourceLocator) -> Result<ResolvedPath, String>,
    F: FnOnce(&ResolvedPath) -> Result<String, ReadFailure>,

    requires
        loaded(locator, resolver, reader, out),
        forall|resolution: Result<ResolvedPath, String>| #[trigger]
            call_ensures(resolver, (locator,), resolution) ==> resolution is Err,
    ensures
        out is Err,
        out->Err_0@ is PathResolution,
{
}

/// Where the resolved file cannot be opened, the load fails with `Open`, and
/// the failure names a path that the resolver gave. The text parser has no part
/// in the result.
pub proof fn lemma_unopened_file_ends_load<R, F>(
    locator: &ResourceLocator,
    resolver: R,
    reader: F,
    out: Result<toml::Value, BridgeError>,
) where
    R: FnOnce(&ResourceLocator) -> Result<ResolvedPath, String>,
    F: FnOnce(&ResolvedPath) -> Result<String, ReadFailure>,

    requires
        loaded(locator, resolver, reader, out),
        forall|resolution: Result<ResolvedPath, String>| #[trigger]
            call_ensures(resolver, (locator,), resolution) ==> resolution is Ok,
        forall|resolved: ResolvedPath, answer: Result<String, ReadFailure>| #[trigger]
            call_ensures(reader, (&resolved,), answer) ==> answer is Err && answer->Err_0 is Open,
    ensures
        out is Err,
        out->Err_0@ is Open,
        exists|resolved: ResolvedPath| #[trigger]
            call_ensures(resolver, (locator,), Ok::<ResolvedPath, String>(resolved))
                && out->Err_0@->Open_path == resolved@,
{
    let resolution = choose|resolution: Result<ResolvedPath, String>|
        #[trigger] call_ensures(resolver, (locator,), resolution) && match resolution {
            Err(reason) => result_view(out) == Err::<toml::Value, BridgeErrorView>(
                BridgeErrorView::PathResolution { reason: reason@ },
            ),
            Ok(resolved) => exists|answer: Result<String, ReadFailure>|
                #[trigger] call_ensures(reader, (&resolved,), answer) && result_view(out)
                    == after_read(resolved@, answer),
        };
    let resolved = resolution->Ok_0;
    assert(call_ensures(resolver, (locator,), Ok::<ResolvedPath, String>(resolved)));
}

/// Where the file is read and its content is not a well-formed document, the
/// load fails with `Parse`: there is no document in the result, whole or partial.
pub proof fn lemma_malformed_content_ends_load<R, F>(
    locator: &ResourceLocator,
    resolver: R,
    reader: F,
    out: Result<toml::Value, BridgeError>,
) where
    R: FnOnce(&ResourceLocator) -> Result<ResolvedPath, String>,
    F: FnOnce(&ResolvedPath) -> Result<String, ReadFailure>,

    requires
        loaded(locator, resolver, reader, out),
        forall|resolution: Result<ResolvedPath, String>| #[trigger]
            call_ensures(resolver, (locator,), resolution) ==> resolution is Ok,
        forall|resolved: ResolvedPath, answer: Result<String, ReadFailure>| #[trigger]
            call_ensures(reader, (&resolved,), answer) ==> answer is Ok && toml_parse(
                answer->Ok_0@,
            ) is Err,
    ensures
        out is Err,
        out->Err_0@ is Parse,
{
}

/// A load returns a document only where every stage succeeded: the resolver
/// gave a path, the reader gave the content of that path, and the document is
/// what the parser makes of that content.
pub proof fn lemma_document_comes_from_content<R, F>(
    locator: &ResourceLocator,
    resolver: R,
    reader: F,
    out: Result<toml::Value, BridgeError>,
) where
    R: FnOnce(&ResourceLocator) -> Result<ResolvedPath, String>,
    F: FnOnce(&ResolvedPath) -> Result<String, ReadFailure>,

    requires
        loaded(locator, resolver, reader, out),
        out is Ok,
    ensures
        exists|resolved: ResolvedPath, text: String|
            call_ensures(resolver, (locator,), Ok::<ResolvedPath, String>(resolved))
                && #[trigger] call_ensures(reader, (&resolved,), Ok::<String, ReadFailure>(text))
                && toml_parse(text@) == Ok::<toml::Value, Seq<char>>(out->Ok_0),
{
    let resolution = choose|resolution: Result<ResolvedPath, String>|
        #[trigger] call_ensures(resolver, (locator,), resolution) && match resolution {
            Err(reason) => result_view(out) == Err::<toml::Value, BridgeErrorView>(
                BridgeErrorView::PathResolution { reason: reason@ },
            ),
            Ok(resolved) => exists|answer: Result<String, ReadFailure>|
                #[trigger] call_ensures(reader, (&resolved,), answer) && result_view(out)
                    == after_read(resolved@, answer),
        };
    let resolved = resolution->Ok_0;
    let answer = choose|answer: Result<String, ReadFailure>|
        #[trigger] call_ensures(reader, (&resolved,), answer) && result_view(out) == after_read(
            resolved@,
            answer,
        );
    let text = answer->Ok_0;
    assert(call_ensures(resolver, (locator,), Ok::<ResolvedPath, String>(resolved)));
    assert(call_ensures(reader, (&resolved,), Ok::<String, ReadFailure>(text)));
}

/// Loads are repeatable against a host that does not change: where the resolver
/// has one answer for the locator and the reader one answer for each path, any
/// two loads return the same document or the same failure.
pub proof fn lemma_load_repeatable<R, F>(
    locator: &ResourceLocator,
    resolver: R,
    reader: F,
    first: Result<toml::Value, BridgeError>,
    second: Result<toml::Value, BridgeError>,
) where
    R: FnOnce(&ResourceLocator) -> Result<ResolvedPath, String>,
    F: FnOnce(&ResolvedPath) -> Result<String, ReadFailure>,

    requires
        loaded(locator, resolver, reader, first),
        loaded(locator, resolver, reader, second),
        forall|a: Result<ResolvedPath, String>, b: Result<ResolvedPath, String>|
            #[trigger] call_ensures(resolver, (locator,), a) && #[trigger] call_ensures(
                resolver,
                (locator,),
                b,
            ) ==> same_resolution(a, b),
        forall|
            p: ResolvedPath,
            q: ResolvedPath,
            a: Result<String, ReadFailure>,
            b: Result<String, ReadFailure>,
        |
            p@ == q@ && #[trigger] call_ensures(reader, (&p,), a) && #[trigger] call_ensures(
                reader,
                (&q,),
                b,
            ) ==> same_content(a, b),
    ensures
        result_view(first) == result_view(second),
{
    let one = choose|resolution: Result<ResolvedPath, String>|
        #[trigger] call_ensures(resolver, (locator,), resolution) && match resolution {
            Err(reason) => result_view(first) == Err::<toml::Value, BridgeErrorView>(
                BridgeErrorView::PathResolution { reason: reason@ },
            ),
            Ok(resolved) => exists|answer: Result<String, ReadFailure>|
                #[trigger] call_ensures(reader, (&resolved,), answer) && result_view(first)
                    == after_read(resolved@, answer),
        };
    let two = choose|resolution: Result<ResolvedPath, String>|
        #[trigger] call_ensures(resolver, (locator,), resolution) && match resolution {
            Err(reason) => result_view(second) == Err::<toml::Value, BridgeErrorView>(
                BridgeErrorView::PathResolution { reason: reason@ },
            ),
            Ok(resolved) => exists|answer: Result<String, ReadFailure>|
                #[trigger] call_ensures(reader, (&resolved,), answer) && result_view(second)
                    == after_read(resolved@, answer),
        };
    assert(same_resolution(one, two));
    if one is Ok {
        let p = one->Ok_0;
        let q = two->Ok_0;
        let a = choose|answer: Result<String, ReadFailure>|
            #[trigger] call_ensures(reader, (&p,), answer) && result_view(first) == after_read(
                p@,
                answer,
            );
        let b = choose|answer: Result<String, ReadFailure>|
            #[trigger] call_ensures(reader, (&q,), answer) && result_view(second) == after_read(
                q@,
                answer,
            );
        assert(same_content(a, b));
    }
}

} // verus!
