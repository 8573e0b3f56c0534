//! The commands of the program and what they are given.

use vstd::prelude::*;

verus! {

/// The site that a command resolves through.
#[derive(Debug, Copy, Clone, PartialEq, Eq, PartialOrd, Ord, Structural)]
pub enum Src {
    ZBKYYY,
    IJUJITV,
    JUGOUGOU,
}

impl Src {
    /// The name by which the command line selects the site.
    pub open spec fn name_text(self) -> Seq<char> {
        match self {
            Src::ZBKYYY => "zbkyyy"@,
            Src::IJUJITV => "ijujitv"@,
            Src::JUGOUGOU => "jugougou"@,
        }
    }

    /// The name by which the command line selects the site.
    pub fn name(&self) -> (name: &'static str)
        ensures
            name@ == self.name_text(),
    {
        match self {
            Src::ZBKYYY => "zbkyyy",
            Src::IJUJITV => "ijujitv",
            Src::JUGOUGOU => "jugougou",
        }
    }

    /// The site that `name` selects; `None` where it selects none.
    pub fn from_name(name: &str) -> (src: Option<Src>)
        ensures
            src == if name@ == "zbkyyy"@ {
                Some(Src::ZBKYYY)
            } else if name@ == "ijujitv"@ {
                Some(Src::IJUJITV)
            } else if name@ == "jugougou"@ {
                Some(Src::JUGOUGOU)
            } else {
                None
            },
    {
        if name.eq("zbkyyy") {
            Some(Src::ZBKYYY)
        } else if name.eq("ijujitv") {
            Some(Src::IJUJITV)
        } else if name.eq("jugougou") {
            Some(Src::JUGOUGOU)
        } else {
            None
        }
    }
}

/// One command with its arguments.
#[derive(Debug)]
pub enum Mode {
    /// Search a site, or all of them, for a keyword.
    Search { keyword: String, src: Src, all: bool, nocache: bool },
    /// Download a group of episodes of an entry, or list the groups.
    Download {
        id: u64,
        src: Src,
        index: usize,
        nocache: bool,
        save_dir: Option<String>,
        print: bool,
        climit: usize,
    },
    /// Download the stream behind a playlist URL.
    M3U8 { url: String, output: String, climit: usize },
}

/// What the command line was parsed to.
#[derive(Debug)]
pub struct Cli {
    pub mode: Option<Mode>,
}

impl Cli {
    /// The site that is used where the command line names none.
    pub fn default_src() -> (src: Src)
        ensures
            src == Src::JUGOUGOU,
    {
        Src::JUGOUGOU
    }

    /// The group of episodes that is downloaded where the command line names none.
    pub fn default_index() -> (index: usize)
        ensures
            index == 1,
    {
        1
    }

    /// The number of concurrent downloads where the command line names none.
    pub fn default_climit() -> (climit: usize)
        ensures
            climit == 32,
    {
        32
    }

    /// The output of a direct download where the command line names none.
    pub fn default_output() -> (output: &'static str)
        ensures
            output@ == "output.mp4"@,
    {
        "output.mp4"
    }

    /// Whether the command is well formed: a direct download needs room for
    /// at least one download at a time.
    pub fn valid(&self) -> (ok: bool)
        ensures
            ok == match self.mode {
                Some(Mode::M3U8 { climit, .. }) => climit >= 1,
                _ => true,
            },
    {
        match &self.mode {
            Some(Mode::M3U8 { climit, .. }) => *climit >= 1,
            _ => true,
        }
    }
}

} // verus!
