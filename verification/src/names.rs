//! Where Node.js and the harness package come from, and how installations are named.

use vstd::prelude::*;
use crate::text::same_text;

verus! {

/// The Node.js release the launcher installs.
pub const NODE_VERSION: &'static str = "v20.20.2";

/// The archive of that release for 64-bit Windows.
pub const NODE_ARCHIVE: &'static str = "node-v20.20.2-win-x64.zip";

/// Where a source checkout of the harness is looked for first.
pub const DEFAULT_REPO: &'static str = "D:\\Program Files\\Dev\\deepseek-harness";

/// The address of the local harness web service.
pub const SERVER_URL: &'static str = "http://127.0.0.1:3080";

/// The port of the local harness web service.
pub const SERVER_PORT: u16 = 3080;

/// A place to download Node.js and npm packages from.
#[derive(Clone, Copy, PartialEq, Eq, Structural, Debug)]
pub enum NodeSource {
    Official,
    Mirror,
}

/// How the harness was installed: a source checkout, or a global npm package.
#[derive(Clone, Copy, PartialEq, Eq, Structural, Debug)]
pub enum DshKind {
    Repo,
    Npm,
}

/// The display label of a source.
pub open spec fn source_label(s: NodeSource) -> Seq<char> {
    match s {
        NodeSource::Official => "官方源"@,
        NodeSource::Mirror => "镜像源"@,
    }
}

/// The directory URL under which a source publishes Node.js releases.
pub open spec fn release_base(s: NodeSource) -> Seq<char> {
    match s {
        NodeSource::Official => "https://nodejs.org/download/release/"@,
        NodeSource::Mirror => "https://npmmirror.com/mirrors/node/"@,
    }
}

/// The npm registry of a source.
pub open spec fn registry_url(s: NodeSource) -> Seq<char> {
    match s {
        NodeSource::Official => "https://registry.npmjs.org"@,
        NodeSource::Mirror => "https://registry.npmmirror.com"@,
    }
}

/// The name under which a kind of installation is recorded in the configuration.
pub open spec fn kind_name(k: DshKind) -> Seq<char> {
    match k {
        DshKind::Repo => "repo"@,
        DshKind::Npm => "npm"@,
    }
}

impl NodeSource {
    /// The display label of this source.
    pub fn label(self) -> (r: &'static str)
        ensures
            r@ == source_label(self),
    {
        match self {
            NodeSource::Official => "官方源",
            NodeSource::Mirror => "镜像源",
        }
    }

    /// The download URL of the Node.js `archive` of `version` at this source.
    pub fn node_url(self, version: &str, archive: &str) -> (r: String)
        ensures
            r@ == release_base(self) + version@ + "/"@ + archive@,
    {
        let mut r = match self {
            NodeSource::Official => String::from_str("https://nodejs.org/download/release/"),
            NodeSource::Mirror => String::from_str("https://npmmirror.com/mirrors/node/"),
        };
        r.append(version);
        r.append("/");
        r.append(archive);
        r
    }

    /// The npm registry of this source.
    pub fn npm_registry(self) -> (r: &'static str)
        ensures
            r@ == registry_url(self),
    {
        match self {
            NodeSource::Official => "https://registry.npmjs.org",
            NodeSource::Mirror => "https://registry.npmmirror.com",
        }
    }

    /// The source the user chose in the installer: `"mirror"` picks the
    /// mirror, anything else (or nothing) the official source.
    pub fn from_choice(choice: Option<&str>) -> (r: NodeSource)
        ensures
            r == (if choice is Some && choice->0@ == "mirror"@ {
                NodeSource::Mirror
            } else {
                NodeSource::Official
            }),
    {
        match choice {
            Some(c) => if same_text(c, "mirror") {
                NodeSource::Mirror
            } else {
                NodeSource::Official
            },
            None => NodeSource::Official,
        }
    }

    /// Both sources, the preferred one first.
    pub fn try_order(self) -> (r: [NodeSource; 2])
        ensures
            r[0] == self,
            r[1] != self,
    {
        match self {
            NodeSource::Official => [NodeSource::Official, NodeSource::Mirror],
            NodeSource::Mirror => [NodeSource::Mirror, NodeSource::Official],
        }
    }
}

impl DshKind {
    /// The name under which this kind is recorded in the configuration.
    pub fn as_str(self) -> (r: &'static str)
        ensures
            r@ == kind_name(self),
    {
        match self {
            DshKind::Repo => "repo",
            DshKind::Npm => "npm",
        }
    }
}

} // verus!
