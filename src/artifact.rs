use vstd::prelude::*;

use crate::language::{name_of, Language};

verus! {

/// One of the boot artifacts kept on the host.
#[derive(Clone, Copy, Debug, PartialEq, Eq, Structural)]
pub enum ArtifactKind {
    Kernel,
    Agent,
    Initramfs(Language),
}

pub open spec fn kernel_suffix() -> Seq<char> {
    "/tools/kernel/linux-cloud-hypervisor/arch/x86/boot/compressed/vmlinux.bin"@
}

pub open spec fn agent_suffix() -> Seq<char> {
    "/target/x86_64-unknown-linux-musl/release/agent"@
}

pub open spec fn rootfs_dir() -> Seq<char> {
    "/tools/rootfs/"@
}

/// Where an artifact lies under the install tree `root`. The path depends on
/// the kind alone; an initramfs path is derived one-to-one from its language.
pub open spec fn path_of(kind: ArtifactKind, root: Seq<char>) -> Seq<char> {
    match kind {
        ArtifactKind::Kernel => root + kernel_suffix(),
        ArtifactKind::Agent => root + agent_suffix(),
        ArtifactKind::Initramfs(l) => root + rootfs_dir() + name_of(l) + ".img"@,
    }
}

/// The container image an initramfs is built from: `"<language>:alpine"`.
pub open spec fn image_tag_of(l: Language) -> Seq<char> {
    name_of(l) + ":alpine"@
}

/// The position of an artifact in the cache's table.
pub open spec fn slot_of(kind: ArtifactKind) -> int {
    match kind {
        ArtifactKind::Kernel => 0,
        ArtifactKind::Agent => 1,
        ArtifactKind::Initramfs(Language::Rust) => 2,
        ArtifactKind::Initramfs(Language::Python) => 3,
        ArtifactKind::Initramfs(Language::Node) => 4,
    }
}

/// The number of artifacts the cache keeps track of.
pub const ARTIFACT_SLOTS: usize = 5;

impl ArtifactKind {
    /// The path of this artifact under the install tree `root`.
    pub fn path(self, root: &str) -> (r: String)
        ensures
            r@ == path_of(self, root@),
    {
        let mut p = root.to_owned();
        match self {
            ArtifactKind::Kernel => {
                p.append("/tools/kernel/linux-cloud-hypervisor/arch/x86/boot/compressed/vmlinux.bin");
            },
            ArtifactKind::Agent => {
                p.append("/target/x86_64-unknown-linux-musl/release/agent");
            },
            ArtifactKind::Initramfs(l) => {
                p.append("/tools/rootfs/");
                let name = l.name();
                p.append(name.as_str());
                p.append(".img");
            },
        }
        p
    }

    pub(crate) fn slot(self) -> (r: usize)
        ensures
            r as int == slot_of(self),
            r < ARTIFACT_SLOTS,
    {
        match self {
            ArtifactKind::Kernel => 0,
            ArtifactKind::Agent => 1,
            ArtifactKind::Initramfs(Language::Rust) => 2,
            ArtifactKind::Initramfs(Language::Python) => 3,
            ArtifactKind::Initramfs(Language::Node) => 4,
        }
    }
}

/// The image tag an initramfs for `language` is built from.
pub fn image_tag(language: Language) -> (r: String)
    ensures
        r@ == image_tag_of(language),
{
    let mut t = language.name();
    t.append(":alpine");
    t
}

} // verus!
