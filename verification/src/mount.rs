//! Staged mounts.
//!
//! A mount whose destination begins with `/sealed` stages ciphertext: the
//! container is to see it at the destination without that prefix, and its
//! source is a directory of staged files. Where a specification stages
//! anything, it also gets one bind mount of the secrets directory.

use crate::cdh::CDHClient;
use crate::text::{has_prefix, strip_prefix};
use vstd::prelude::*;
use vstd::string::*;

verus! {

/// The destination prefix that marks a staged mount.
pub const SEALED_MOUNT_PREFIX: &'static str = "/sealed";

/// One mount of a container specification.
#[derive(Debug, Clone, PartialEq, Eq)]
pub struct Mount {
    pub destination: String,
    pub typ: String,
    pub source: String,
    pub options: Vec<String>,
}

/// The part of a container specification that the broker rewrites.
#[derive(Debug, Clone, PartialEq, Eq)]
pub struct Spec {
    pub mounts: Vec<Mount>,
}

/// The model of a [`Mount`].
pub struct MountView {
    pub destination: Seq<char>,
    pub typ: Seq<char>,
    pub source: Seq<char>,
    pub options: Seq<Seq<char>>,
}

impl View for Mount {
    type V = MountView;

    open spec fn view(&self) -> MountView {
        MountView {
            destination: self.destination@,
            typ: self.typ@,
            source: self.source@,
            options: self.options.deep_view(),
        }
    }
}

impl View for Spec {
    type V = Seq<MountView>;

    open spec fn view(&self) -> Seq<MountView> {
        self.mounts@.map_values(|m: Mount| m@)
    }
}

/// `m` stages ciphertext.
pub open spec fn is_staged(m: MountView) -> bool {
    has_prefix(m.destination, SEALED_MOUNT_PREFIX@)
}

/// `m` as the container is to see it: a staged mount loses the prefix of
/// its destination, any other mount stays as it is.
pub open spec fn unstaged(m: MountView) -> MountView {
    if is_staged(m) {
        MountView { destination: m.destination.skip(SEALED_MOUNT_PREFIX@.len() as int), ..m }
    } else {
        m
    }
}

/// The source of `m`, where `m` stages ciphertext.
pub open spec fn staged_source(m: MountView) -> Option<Seq<char>> {
    if is_staged(m) {
        Some(m.source)
    } else {
        None
    }
}

/// The sources of the staged mounts, in the order of the mount list.
pub open spec fn staged_sources(mounts: Seq<MountView>) -> Seq<Seq<char>> {
    mounts.filter_map(|m: MountView| staged_source(m))
}

/// The bind mount that exposes the secrets directory.
pub open spec fn secrets_mount(secrets_dir: Seq<char>) -> MountView {
    MountView {
        destination: secrets_dir,
        typ: "bind"@,
        source: secrets_dir,
        options: seq!["bind"@],
    }
}

/// The mount list after the rewrite: every mount unstaged, in place, and
/// after them one mount of the secrets directory where there was anything
/// staged.
pub open spec fn rewritten(secrets_dir: Seq<char>, mounts: Seq<MountView>) -> Seq<MountView> {
    let unstaged = mounts.map_values(|m: MountView| unstaged(m));
    if staged_sources(mounts).len() > 0 {
        unstaged.push(secrets_mount(secrets_dir))
    } else {
        unstaged
    }
}

impl CDHClient {
    /// Rewrites the mounts of `spec` and returns the sources of those that
    /// were staged, in the order of the mount list. The caller resolves
    /// each of them as a directory of staged files, and sees to it that
    /// the secrets directory exists.
    pub fn create_sealed_secret_mounts(&self, spec: &mut Spec) -> (sealed_source_path: Vec<String>)
        ensures
            sealed_source_path.deep_view() == staged_sources(old(spec)@),
            final(spec)@ == rewritten(self.secrets_dir@, old(spec)@),
            (forall|i: int| 0 <= i < old(spec)@.len() ==> !is_staged(#[trigger] old(spec)@[i]))
                ==> sealed_source_path@.len() == 0 && final(spec)@ == old(spec)@,
    {
        let ghost before = spec@;
        let n: usize = spec.mounts.len();
        let mut sealed_source_path: Vec<String> = Vec::new();
        let mut i: usize = 0;
        while i < n
            invariant
                i <= n,
                n == before.len(),
                spec.mounts@.len() == n,
                forall|j: int| 0 <= j < i ==> (#[trigger] spec.mounts@[j])@ == unstaged(before[j]),
                forall|j: int| i <= j < n ==> (#[trigger] spec.mounts@[j])@ == before[j],
                sealed_source_path.deep_view() == staged_sources(before.take(i as int)),
            decreases n - i,
        {
            proof {
                before.lemma_filter_map_take_succ(|m: MountView| staged_source(m), i as int);
            }
            let ghost sources = sealed_source_path.deep_view();
            match strip_prefix(spec.mounts[i].destination.as_str(), SEALED_MOUNT_PREFIX) {
                Some(unsealed_mount_point) => {
                    let source = spec.mounts[i].source.clone();
                    let destination = String::from_str(unsealed_mount_point);
                    sealed_source_path.push(source);
                    spec.mounts[i].destination = destination;
                    assert(sealed_source_path.deep_view() =~= sources + seq![before[i as int].source]);
                },
                None => {},
            }
            i += 1;
        }
        assert(before.take(n as int) =~= before);
        if sealed_source_path.len() > 0 {
            let mut options: Vec<String> = Vec::new();
            options.push(String::from_str("bind"));
            assert(options.deep_view() =~= seq!["bind"@]);
            spec.mounts.push(
                Mount {
                    destination: self.secrets_dir.clone(),
                    typ: String::from_str("bind"),
                    source: self.secrets_dir.clone(),
                    options,
                },
            );
        }
        assert(spec@ =~= rewritten(self.secrets_dir@, before));
        proof {
            if forall|i: int| 0 <= i < before.len() ==> !is_staged(#[trigger] before[i]) {
                lemma_nothing_staged(self.secrets_dir@, before);
            }
        }
        sealed_source_path
    }
}

/// A specification that stages nothing yields no source and keeps its
/// mount list as it is.
pub proof fn lemma_nothing_staged(secrets_dir: Seq<char>, mounts: Seq<MountView>)
    requires
        forall|i: int| 0 <= i < mounts.len() ==> !is_staged(#[trigger] mounts[i]),
    ensures
        staged_sources(mounts) == Seq::<Seq<char>>::empty(),
        rewritten(secrets_dir, mounts) == mounts,
    decreases mounts.len(),
{
    let f = |m: MountView| staged_source(m);
    if mounts.len() > 0 {
        let rest = mounts.drop_last();
        lemma_nothing_staged(secrets_dir, rest);
        assert(staged_source(mounts.last()) is None);
    }
    assert(mounts.filter_map(f) =~= Seq::<Seq<char>>::empty());
    assert(mounts.map_values(|m: MountView| unstaged(m)) =~= mounts);
}

/// The rewrite adds at most one mount, and adds it exactly where
/// something was staged, however many mounts that is.
pub proof fn lemma_one_secrets_mount(secrets_dir: Seq<char>, mounts: Seq<MountView>)
    ensures
        rewritten(secrets_dir, mounts).len() == mounts.len() + (if exists|i: int|
            0 <= i < mounts.len() && is_staged(#[trigger] mounts[i]) {
            1int
        } else {
            0int
        }),
        staged_sources(mounts).len() > 0 ==> rewritten(secrets_dir, mounts).last() == secrets_mount(
            secrets_dir,
        ),
{
    if exists|i: int| 0 <= i < mounts.len() && is_staged(#[trigger] mounts[i]) {
        let i = choose|i: int| 0 <= i < mounts.len() && is_staged(#[trigger] mounts[i]);
        lemma_staged_counts(mounts, i);
    } else {
        lemma_nothing_staged(secrets_dir, mounts);
    }
}

/// A staged mount contributes a source.
proof fn lemma_staged_counts(mounts: Seq<MountView>, i: int)
    requires
        0 <= i < mounts.len(),
        is_staged(mounts[i]),
    ensures
        staged_sources(mounts).len() > 0,
    decreases mounts.len(),
{
    if i < mounts.len() - 1 {
        lemma_staged_counts(mounts.drop_last(), i);
    }
}

} // verus!
