//! The artifacts of a cargo build, from its `--message-format=json` output.
use vstd::prelude::*;

use cargo_metadata::camino::Utf8PathBuf;

use super::common::{CargoArtifactKind, ToolError};
use crate::text::{spec_is_absolute, str_eq};

verus! {

/// A compiler artifact reported by cargo.
#[derive(Debug)]
pub struct CompilerArtifact {
    pub manifest_path: String,
    /// Built for tests.
    pub test: bool,
    /// Target kinds (`bin`, `cdylib`, `custom-build`, ...).
    pub kinds: Vec<String>,
    pub crate_types: Vec<String>,
    pub executable: Option<String>,
    pub filenames: Vec<String>,
}

/// A message of cargo's JSON output that the build looks at.
#[derive(Debug)]
pub enum CargoMessage {
    /// A compiler diagnostic, with its rendered text.
    Diagnostic(Option<String>),
    /// A compiler artifact.
    Artifact(CompilerArtifact),
    /// Any other message, or a line that is not a message.
    Other,
}

/// The deepest nesting of JSON arrays and objects that a line of cargo's
/// output may have. The parser of the messages recurses once per level
/// without a limit of its own, so deeper input would exhaust the stack.
pub const MAX_JSON_DEPTH: u64 = 128;

/// The state of a scan of cargo's output: the nesting depth of the current
/// line (never below zero), whether the scan is inside a string, and
/// whether the previous byte was a backslash inside a string.
pub open spec fn spec_json_scan(s: Seq<u8>) -> (int, bool, bool)
    decreases s.len(),
{
    if s.len() == 0 {
        (0, false, false)
    } else {
        let (d, in_str, esc) = spec_json_scan(s.drop_last());
        let c = s.last();
        if c == 10u8 {
            (0, false, false)
        } else if in_str {
            if esc {
                (d, true, false)
            } else if c == 92u8 {
                (d, true, true)
            } else if c == 34u8 {
                (d, false, false)
            } else {
                (d, true, false)
            }
        } else if c == 34u8 {
            (d, true, false)
        } else if c == 91u8 || c == 123u8 {
            (d + 1, false, false)
        } else if c == 93u8 || c == 125u8 {
            (if d > 0 { d - 1 } else { 0 }, false, false)
        } else {
            (d, false, false)
        }
    }
}

/// Whether no line of cargo's output nests arrays and objects (outside
/// strings) deeper than [`MAX_JSON_DEPTH`].
pub open spec fn spec_json_nesting_within(s: Seq<u8>) -> bool {
    forall|k: int| 0 <= k <= s.len() ==> #[trigger] spec_json_scan(s.take(k)).0 <= MAX_JSON_DEPTH
}

/// Checks that no line of cargo's output nests arrays and objects deeper
/// than [`MAX_JSON_DEPTH`], so that it can be parsed.
pub fn json_nesting_within(stdout: &[u8]) -> (b: bool)
    ensures
        b == spec_json_nesting_within(stdout@),
{
    let n = stdout.len();
    let mut depth: u64 = 0;
    let mut in_str = false;
    let mut esc = false;
    let mut i: usize = 0;
    assert(stdout@.take(0) =~= Seq::<u8>::empty());
    while i < n
        invariant
            n == stdout@.len(),
            i <= n,
            depth <= MAX_JSON_DEPTH,
            spec_json_scan(stdout@.take(i as int)) == (depth as int, in_str, esc),
            forall|k: int| 0 <= k <= i ==> #[trigger] spec_json_scan(stdout@.take(k)).0 <= MAX_JSON_DEPTH,
        decreases n - i,
    {
        let c = stdout[i];
        assert(stdout@.take(i + 1).drop_last() =~= stdout@.take(i as int));
        assert(stdout@.take(i + 1).last() == c);
        if c == 10u8 {
            depth = 0;
            in_str = false;
            esc = false;
        } else if in_str {
            if esc {
                esc = false;
            } else if c == 92u8 {
                esc = true;
            } else if c == 34u8 {
                in_str = false;
            }
        } else if c == 34u8 {
            in_str = true;
        } else if c == 91u8 || c == 123u8 {
            if depth == MAX_JSON_DEPTH {
                assert(spec_json_scan(stdout@.take(i + 1)).0 > MAX_JSON_DEPTH);
                return false;
            }
            depth = depth + 1;
        } else if c == 93u8 || c == 125u8 {
            if depth > 0 {
                depth = depth - 1;
            }
        }
        assert(spec_json_scan(stdout@.take(i + 1)) == (depth as int, in_str, esc));
        i += 1;
    }
    true
}

/// The messages that `cargo_metadata::Message::parse_stream` reads from
/// cargo's output, one per item it yields, in order; compiler messages and
/// artifacts are kept in the fields the build looks at, anything else
/// (including a line it cannot parse) is `Other`.
pub uninterp spec fn cargo_messages(stdout: Seq<u8>) -> Seq<CargoMessage>;

/// Parses cargo's JSON output with `cargo_metadata::Message::parse_stream`.
#[verifier::external_body]
fn parse_cargo_messages(stdout: &[u8]) -> (r: Vec<CargoMessage>)
    requires
        spec_json_nesting_within(stdout@),
    ensures
        r@ == cargo_messages(stdout@),
{
    let mut out = Vec::new();
    for m in cargo_metadata::Message::parse_stream(std::io::Cursor::new(stdout)) {
        match m {
            Ok(cargo_metadata::Message::CompilerMessage(c)) => out.push(CargoMessage::Diagnostic(c.message.rendered)),
            Ok(cargo_metadata::Message::CompilerArtifact(a)) => out.push(CargoMessage::Artifact(CompilerArtifact {
                manifest_path: a.manifest_path.into_string(), test: a.profile.test, kinds: a.target.kind,
                crate_types: a.target.crate_types, executable: a.executable.map(Utf8PathBuf::into_string),
                filenames: a.filenames.into_iter().map(Utf8PathBuf::into_string).collect(),
            })),
            _ => out.push(CargoMessage::Other),
        }
    }
    out
}

/// The canonical form of a path (`Path::canonicalize`), or `None` when it
/// cannot be resolved (or is not UTF-8); which, depends on the disk. A
/// canonical path is absolute.
#[verifier::external_body]
fn canonicalize(path: &str) -> (r: Option<String>)
    ensures
        r matches Some(p) ==> spec_is_absolute(p@),
{
    match std::path::Path::new(path).canonicalize() {
        Ok(p) => p.into_os_string().into_string().ok(),
        Err(_) => None,
    }
}

/// Whether `s` ends with `suffix`.
pub open spec fn spec_ends_with(s: Seq<char>, suffix: Seq<char>) -> bool {
    suffix.len() <= s.len() && s.subrange(s.len() - suffix.len(), s.len() as int) == suffix
}

fn ends_with_so(s: &str) -> (b: bool)
    ensures
        b == spec_ends_with(s@, ".so"@),
{
    proof {
        reveal_strlit(".so");
    }
    let n = s.unicode_len();
    if n < 3 {
        return false;
    }
    let tail = s.substring_char(n - 3, n);
    str_eq(tail, ".so")
}

fn contains_string(items: &Vec<String>, x: &str) -> (b: bool)
    ensures
        b == items.deep_view().contains(x@),
{
    let n = items.len();
    let mut i: usize = 0;
    while i < n
        invariant
            n == items@.len(),
            i <= n,
            forall|k: int| 0 <= k < i ==> items.deep_view()[k] != x@,
        decreases n - i,
    {
        if str_eq(items[i].as_str(), x) {
            assert(items.deep_view()[i as int] == x@);
            return true;
        }
        i += 1;
    }
    false
}

/// The paths one artifact contributes: none unless it belongs to the
/// expected manifest (compared in canonical form), is not a test build and
/// not a build script; a binary's executable, or a cdylib's `.so` files.
pub open spec fn spec_artifact_paths(
    a: CompilerArtifact,
    canonical_manifest: Seq<char>,
    expected: Seq<char>,
    kind: CargoArtifactKind,
) -> Seq<Seq<char>> {
    if canonical_manifest != expected || a.test || a.kinds.deep_view().contains("custom-build"@) {
        Seq::empty()
    } else {
        match kind {
            CargoArtifactKind::Bin => match a.executable {
                Some(p) => seq![p@],
                None => Seq::empty(),
            },
            CargoArtifactKind::Cdylib => if a.crate_types.deep_view().contains("cdylib"@) {
                a.filenames.deep_view().filter(|f: Seq<char>| spec_ends_with(f, ".so"@))
            } else {
                Seq::empty()
            },
        }
    }
}

/// The paths of all artifacts, in order; `canonical[i]` is the canonical
/// manifest of message `i`.
pub open spec fn spec_select_artifacts(
    messages: Seq<CargoMessage>,
    canonical: Seq<Seq<char>>,
    expected: Seq<char>,
    kind: CargoArtifactKind,
) -> Seq<Seq<char>>
    decreases messages.len(),
{
    if messages.len() == 0 {
        Seq::empty()
    } else {
        let rest = spec_select_artifacts(messages.drop_last(), canonical, expected, kind);
        match messages.last() {
            CargoMessage::Artifact(a) => rest + spec_artifact_paths(
                a,
                canonical[messages.len() - 1],
                expected,
                kind,
            ),
            _ => rest,
        }
    }
}

fn artifact_paths(a: &CompilerArtifact, canonical_manifest: &str, expected: &str, kind: CargoArtifactKind) -> (r: Vec<String>)
    ensures
        r.deep_view() == spec_artifact_paths(*a, canonical_manifest@, expected@, kind),
{
    proof {
        reveal_strlit("custom-build");
        reveal_strlit("cdylib");
    }
    let mut out: Vec<String> = Vec::new();
    if !str_eq(canonical_manifest, expected) || a.test || contains_string(&a.kinds, "custom-build") {
        return out;
    }
    match kind {
        CargoArtifactKind::Bin => {
            match &a.executable {
                Some(p) => {
                    out.push(p.clone());
                    assert(out.deep_view() =~= seq![p@]);
                },
                None => {},
            }
        },
        CargoArtifactKind::Cdylib => {
            if contains_string(&a.crate_types, "cdylib") {
                let ghost names = a.filenames.deep_view();
                let n = a.filenames.len();
                let mut i: usize = 0;
                while i < n
                    invariant
                        n == names.len(),
                        names == a.filenames.deep_view(),
                        i <= n,
                        out.deep_view() == names.take(i as int).filter(
                            |f: Seq<char>| spec_ends_with(f, ".so"@),
                        ),
                    decreases n - i,
                {
                    proof {
                        reveal(Seq::filter);
                        assert(names.take(i + 1).drop_last() =~= names.take(i as int));
                    }
                    if ends_with_so(a.filenames[i].as_str()) {
                        out.push(a.filenames[i].clone());
                    }
                    assert(out.deep_view() =~= names.take(i + 1).filter(
                        |f: Seq<char>| spec_ends_with(f, ".so"@),
                    ));
                    i += 1;
                }
                assert(names.take(n as int) =~= names);
            }
        },
    }
    out
}

/// The artifact paths of the messages that belong to the expected
/// manifest, of the requested kind, in order.
pub fn select_artifacts(
    messages: &[CargoMessage],
    canonical: &[String],
    expected: &str,
    kind: CargoArtifactKind,
) -> (r: Vec<String>)
    requires
        canonical@.len() == messages@.len(),
    ensures
        r.deep_view() == spec_select_artifacts(messages@, canonical.deep_view(), expected@, kind),
{
    let n = messages.len();
    let mut out: Vec<String> = Vec::new();
    let mut i: usize = 0;
    while i < n
        invariant
            n == messages@.len(),
            canonical@.len() == n,
            i <= n,
            out.deep_view() == spec_select_artifacts(
                messages@.take(i as int),
                canonical.deep_view(),
                expected@,
                kind,
            ),
        decreases n - i,
    {
        proof {
            assert(messages@.take(i + 1).drop_last() =~= messages@.take(i as int));
        }
        match &messages[i] {
            CargoMessage::Artifact(a) => {
                let mut paths = artifact_paths(a, canonical[i].as_str(), expected, kind);
                let ghost before = out.deep_view();
                out.append(&mut paths);
                assert(out.deep_view() =~= before + spec_artifact_paths(
                    *a,
                    canonical.deep_view()[i as int],
                    expected@,
                    kind,
                ));
            },
            _ => {},
        }
        i += 1;
    }
    assert(messages@.take(n as int) =~= messages@);
    out
}

/// A canonical path when there is one, else the raw path.
pub open spec fn spec_or(canonical: Option<Seq<char>>, raw: Seq<char>) -> Seq<char> {
    match canonical {
        Some(c) => c,
        None => raw,
    }
}

/// The manifest path each message is compared by: for an artifact, the
/// canonical form of its manifest path, or the raw path when there is
/// none; nothing for other messages.
pub open spec fn spec_or_raw(messages: Seq<CargoMessage>, canonical: Seq<Option<Seq<char>>>) -> Seq<Seq<char>> {
    Seq::new(
        messages.len(),
        |i: int|
            match messages[i] {
                CargoMessage::Artifact(a) => spec_or(canonical[i], a.manifest_path@),
                _ => Seq::<char>::empty(),
            },
    )
}

/// Whether an optional path is absent or absolute.
pub open spec fn spec_absent_or_absolute(p: Option<Seq<char>>) -> bool {
    p matches Some(q) ==> spec_is_absolute(q)
}

/// The artifacts of the package with manifest `manifest_path`, given what
/// canonicalising that path (`manifest_canonical`) and each artifact's
/// manifest path (`artifact_canonical[i]`, for message `i`) gave: a path
/// that could not be canonicalised is compared as it is.
pub fn select_package_artifacts(
    messages: &[CargoMessage],
    manifest_path: &str,
    manifest_canonical: Option<String>,
    artifact_canonical: &[Option<String>],
    kind: CargoArtifactKind,
) -> (r: Vec<String>)
    requires
        artifact_canonical@.len() == messages@.len(),
    ensures
        r.deep_view() == spec_select_artifacts(
            messages@,
            spec_or_raw(messages@, artifact_canonical.deep_view()),
            spec_or(manifest_canonical.deep_view(), manifest_path@),
            kind,
        ),
{
    let expected = match manifest_canonical {
        Some(p) => p,
        None => String::from_str(manifest_path),
    };
    let ghost acs = artifact_canonical.deep_view();
    let n = messages.len();
    let mut canonical: Vec<String> = Vec::new();
    let mut i: usize = 0;
    while i < n
        invariant
            n == messages@.len(),
            artifact_canonical@.len() == n,
            acs == artifact_canonical.deep_view(),
            i <= n,
            canonical.deep_view() == spec_or_raw(messages@, acs).take(i as int),
        decreases n - i,
    {
        let c = match &messages[i] {
            CargoMessage::Artifact(a) => match &artifact_canonical[i] {
                Some(p) => p.clone(),
                None => a.manifest_path.clone(),
            },
            _ => String::new(),
        };
        proof {
            assert(acs[i as int] == artifact_canonical@[i as int].deep_view());
        }
        let ghost before = canonical.deep_view();
        canonical.push(c);
        assert(canonical.deep_view() =~= before.push(c@));
        assert(canonical.deep_view() =~= spec_or_raw(messages@, acs).take(i + 1));
        i += 1;
    }
    assert(canonical.deep_view() =~= spec_or_raw(messages@, acs));
    select_artifacts(messages, canonical.as_slice(), expected.as_str(), kind)
}

/// Collects the current package's artifacts of the requested kind from
/// cargo's JSON output: in stream order, the executable (or `.so` files)
/// of each artifact that is not a test build or build script and whose
/// manifest path, canonicalised, is that of `manifest_path` (a path that
/// cannot be canonicalised is compared as it is). What canonicalising
/// gives depends on the disk; it is absent or an absolute path.
pub fn collect_cargo_artifacts(stdout: &[u8], manifest_path: &str, kind: CargoArtifactKind) -> (r: Vec<String>)
    requires
        spec_json_nesting_within(stdout@),
    ensures
        exists|mc: Option<Seq<char>>, acs: Seq<Option<Seq<char>>>|
            #![trigger spec_select_artifacts(cargo_messages(stdout@), spec_or_raw(cargo_messages(stdout@), acs), spec_or(mc, manifest_path@), kind)]
            {
                &&& acs.len() == cargo_messages(stdout@).len()
                &&& spec_absent_or_absolute(mc)
                &&& forall|i: int| 0 <= i < acs.len() ==> spec_absent_or_absolute(#[trigger] acs[i])
                &&& r.deep_view() == spec_select_artifacts(
                    cargo_messages(stdout@),
                    spec_or_raw(cargo_messages(stdout@), acs),
                    spec_or(mc, manifest_path@),
                    kind,
                )
            },
{
    let messages = parse_cargo_messages(stdout);
    let manifest_canonical = canonicalize(manifest_path);
    let n = messages.len();
    let mut artifact_canonical: Vec<Option<String>> = Vec::new();
    let mut i: usize = 0;
    while i < n
        invariant
            n == messages@.len(),
            i <= n,
            artifact_canonical@.len() == i,
            forall|k: int| 0 <= k < i ==> spec_absent_or_absolute(#[trigger] artifact_canonical.deep_view()[k]),
        decreases n - i,
    {
        let c = match &messages[i] {
            CargoMessage::Artifact(a) => canonicalize(a.manifest_path.as_str()),
            _ => None,
        };
        let ghost before = artifact_canonical.deep_view();
        artifact_canonical.push(c);
        assert(artifact_canonical.deep_view() =~= before.push(c.deep_view()));
        i += 1;
    }
    let ghost mc = manifest_canonical.deep_view();
    let ghost acs = artifact_canonical.deep_view();
    let r = select_package_artifacts(
        messages.as_slice(),
        manifest_path,
        manifest_canonical,
        artifact_canonical.as_slice(),
        kind,
    );
    assert(acs.len() == messages@.len());
    r
}

/// The rendered compiler diagnostics in cargo's JSON output, in order.
pub open spec fn spec_diagnostics(messages: Seq<CargoMessage>) -> Seq<Seq<char>>
    decreases messages.len(),
{
    if messages.len() == 0 {
        Seq::empty()
    } else {
        let rest = spec_diagnostics(messages.drop_last());
        match messages.last() {
            CargoMessage::Diagnostic(Some(text)) => rest.push(text@),
            _ => rest,
        }
    }
}

/// The rendered compiler diagnostics in cargo's JSON output, for printing.
pub fn compiler_diagnostics(stdout: &[u8]) -> (r: Vec<String>)
    requires
        spec_json_nesting_within(stdout@),
    ensures
        r.deep_view() == spec_diagnostics(cargo_messages(stdout@)),
{
    let messages = parse_cargo_messages(stdout);
    let n = messages.len();
    let mut out: Vec<String> = Vec::new();
    let mut i: usize = 0;
    while i < n
        invariant
            n == messages@.len(),
            messages@ == cargo_messages(stdout@),
            i <= n,
            out.deep_view() == spec_diagnostics(messages@.take(i as int)),
        decreases n - i,
    {
        proof {
            assert(messages@.take(i + 1).drop_last() =~= messages@.take(i as int));
        }
        match &messages[i] {
            CargoMessage::Diagnostic(Some(text)) => {
                out.push(text.clone());
            },
            _ => {},
        }
        assert(out.deep_view() =~= spec_diagnostics(messages@.take(i + 1)));
        i += 1;
    }
    assert(messages@.take(n as int) =~= messages@);
    out
}

/// The distinct strings of a sequence, in order of first appearance.
pub open spec fn spec_distinct(items: Seq<Seq<char>>) -> Seq<Seq<char>>
    decreases items.len(),
{
    if items.len() == 0 {
        Seq::empty()
    } else {
        let rest = spec_distinct(items.drop_last());
        if rest.contains(items.last()) {
            rest
        } else {
            rest.push(items.last())
        }
    }
}

/// What a sequence with one more element at the end contains.
proof fn lemma_push_contains(s: Seq<Seq<char>>, a: Seq<char>, x: Seq<char>)
    ensures
        s.push(a).contains(x) <==> (s.contains(x) || x == a),
{
    if s.contains(x) {
        let k = choose|k: int| 0 <= k < s.len() && s[k] == x;
        assert(s.push(a)[k] == x);
    }
    if x == a {
        assert(s.push(a)[s.len() as int] == x);
    }
    if s.push(a).contains(x) && x != a {
        let k = choose|k: int| 0 <= k < s.len() + 1 && s.push(a)[k] == x;
        assert(k < s.len());
        assert(s[k] == x);
    }
}

/// The distinct strings of a sequence hold each string of the sequence
/// exactly once, and nothing else.
pub proof fn lemma_distinct(items: Seq<Seq<char>>)
    ensures
        forall|x: Seq<char>| spec_distinct(items).contains(x) <==> items.contains(x),
        forall|i: int, j: int|
            0 <= i < j < spec_distinct(items).len() ==> spec_distinct(items)[i] != spec_distinct(items)[j],
    decreases items.len(),
{
    if items.len() > 0 {
        let init = items.drop_last();
        let a = items.last();
        lemma_distinct(init);
        let rest = spec_distinct(init);
        assert(items =~= init.push(a));
        assert forall|x: Seq<char>| spec_distinct(items).contains(x) <==> items.contains(x) by {
            lemma_push_contains(init, a, x);
            lemma_push_contains(rest, a, x);
        }
    }
}

/// The distinct strings of a list, in order of first appearance.
pub fn distinct(items: &Vec<String>) -> (r: Vec<String>)
    ensures
        r.deep_view() == spec_distinct(items.deep_view()),
{
    let n = items.len();
    let mut out: Vec<String> = Vec::new();
    let mut i: usize = 0;
    while i < n
        invariant
            n == items@.len(),
            i <= n,
            out.deep_view() == spec_distinct(items.deep_view().take(i as int)),
        decreases n - i,
    {
        proof {
            assert(items.deep_view().take(i + 1).drop_last() =~= items.deep_view().take(i as int));
        }
        if !contains_string(&out, items[i].as_str()) {
            out.push(items[i].clone());
        }
        assert(out.deep_view() =~= spec_distinct(items.deep_view().take(i + 1)));
        i += 1;
    }
    assert(items.deep_view().take(n as int) =~= items.deep_view());
    out
}

/// The only artifact among `paths`: an error when there is none or when
/// there are several distinct ones.
pub fn unique_artifact(paths: &Vec<String>, manifest_path: &str, kind: CargoArtifactKind) -> (r: Result<String, ToolError>)
    ensures
        spec_distinct(paths.deep_view()).len() == 1 ==> (r matches Ok(p) && p@ == spec_distinct(
            paths.deep_view(),
        )[0]),
        spec_distinct(paths.deep_view()).len() == 0 ==> (r matches Err(ToolError::NoArtifact { kind: k, manifest: m })
            && k == kind && m@ == manifest_path@),
        spec_distinct(paths.deep_view()).len() > 1 ==> (r matches Err(ToolError::MultipleArtifacts {
            kind: k,
            manifest: m,
            artifacts: a,
        }) && k == kind && m@ == manifest_path@ && a.deep_view() == spec_distinct(paths.deep_view())),
{
    let mut found = distinct(paths);
    if found.len() == 1 {
        Ok(found.remove(0))
    } else if found.len() == 0 {
        Err(ToolError::NoArtifact { kind, manifest: String::from_str(manifest_path) })
    } else {
        Err(ToolError::MultipleArtifacts { kind, manifest: String::from_str(manifest_path), artifacts: found })
    }
}

/// The single artifact of the requested kind that the build of
/// `manifest_path` produced, from cargo's JSON output.
pub fn unique_cargo_artifact(stdout: &[u8], manifest_path: &str, kind: CargoArtifactKind) -> (r: Result<
    String,
    ToolError,
>)
    requires
        spec_json_nesting_within(stdout@),
    ensures
        exists|mc: Option<Seq<char>>, acs: Seq<Option<Seq<char>>>|
            #![trigger spec_select_artifacts(cargo_messages(stdout@), spec_or_raw(cargo_messages(stdout@), acs), spec_or(mc, manifest_path@), kind)]
        {
            let found = spec_distinct(
                spec_select_artifacts(
                    cargo_messages(stdout@),
                    spec_or_raw(cargo_messages(stdout@), acs),
                    spec_or(mc, manifest_path@),
                    kind,
                ),
            );
            &&& acs.len() == cargo_messages(stdout@).len()
            &&& spec_absent_or_absolute(mc)
            &&& forall|i: int| 0 <= i < acs.len() ==> spec_absent_or_absolute(#[trigger] acs[i])
            &&& (found.len() == 1 ==> (r matches Ok(p) && p@ == found[0]))
            &&& (found.len() == 0 ==> (r matches Err(ToolError::NoArtifact { kind: k, manifest: m }) && k
                == kind && m@ == manifest_path@))
            &&& (found.len() > 1 ==> (r matches Err(ToolError::MultipleArtifacts {
                kind: k,
                manifest: m,
                artifacts: a,
            }) && k == kind && m@ == manifest_path@ && a.deep_view() == found))
        },
{
    let artifacts = collect_cargo_artifacts(stdout, manifest_path, kind);
    unique_artifact(&artifacts, manifest_path, kind)
}

} // verus!
