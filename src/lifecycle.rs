use vstd::prelude::*;

use crate::entry::{Entry, EntryError, Tool};
use crate::paths::{join, join_spec, Layout};
use crate::text::{concat, ends_with, ends_with_spec, join_semicolon, joined, views};

verus! {

/// One source to fetch or update: from `url` into the directory `dest`.
#[derive(Debug, Clone)]
pub struct Fetch {
    pub url: String,
    pub dest: String,
}

/// The version-control client that fetches a source.
#[derive(Debug, Clone, Copy, PartialEq, Eq, Structural)]
pub enum Protocol {
    Git,
    Svn,
}

impl Fetch {
    /// Git for a URL that ends in `.git`, Subversion for any other.
    pub open spec fn protocol_spec(self) -> Protocol {
        if ends_with_spec(self.url@, ".git"@) {
            Protocol::Git
        } else {
            Protocol::Svn
        }
    }

    pub fn protocol(&self) -> (r: Protocol)
        ensures
            r == self.protocol_spec(),
    {
        if ends_with(self.url.as_str(), ".git") {
            Protocol::Git
        } else {
            Protocol::Svn
        }
    }
}

/// The `-D<key>=<value>` flag of one build option.
pub open spec fn option_flag(kv: (String, String)) -> Seq<char> {
    "-D"@ + kv.0@ + "="@ + kv.1@
}

/// The flag that restricts the targets, none when every target is built.
pub open spec fn target_flags(targets: Seq<Seq<char>>) -> Seq<Seq<char>> {
    if targets.len() == 0 {
        seq![]
    } else {
        seq!["-DLLVM_TARGETS_TO_BUILD="@ + joined(targets, ";"@)]
    }
}

impl Entry {
    /// The arguments of the CMake configure step: generator, source, build
    /// and install directories, build type, targets, then one flag per build
    /// option in the setting's order.
    pub open spec fn configure_spec(self, layout: Layout) -> Seq<Seq<char>> {
        let s = self.setting_spec();
        s.builder.option_spec() + seq![
            "-H"@ + self.src_dir_spec(layout),
            "-B"@ + self.build_dir_spec(layout),
            "-DCMAKE_INSTALL_PREFIX="@ + self.prefix_spec(layout),
            "-DCMAKE_BUILD_TYPE="@ + s.build_type.name_spec(),
        ] + target_flags(views(s.target@)) + s.option@.map_values(|kv: (String, String)| option_flag(kv))
    }

    /// The arguments of the CMake step that builds and installs, with
    /// `nproc` parallel jobs where the generator takes a job count.
    pub open spec fn build_spec(self, layout: Layout, nproc: nat) -> Seq<Seq<char>> {
        seq!["--build"@, self.build_dir_spec(layout), "--target"@, "install"@]
            + self.setting_spec().builder.build_option_spec(nproc)
    }

    pub fn configure_args(&self, layout: &Layout) -> (r: Vec<String>)
        ensures
            views(r@) == self.configure_spec(*layout),
    {
        let setting = self.setting();
        let mut opts = setting.builder.option();
        let src = self.src_dir(layout);
        opts.push(concat("-H", src.as_str()));
        let build = self.build_dir(layout);
        opts.push(concat("-B", build.as_str()));
        let prefix = self.prefix(layout);
        opts.push(concat("-DCMAKE_INSTALL_PREFIX=", prefix.as_str()));
        opts.push(concat("-DCMAKE_BUILD_TYPE=", setting.build_type.name()));
        if setting.target.len() > 0 {
            let t = join_semicolon(&setting.target);
            opts.push(concat("-DLLVM_TARGETS_TO_BUILD=", t.as_str()));
        }
        let ghost head = views(opts@);
        assert(head =~= setting.builder.option_spec() + seq![
            "-H"@ + self.src_dir_spec(*layout),
            "-B"@ + self.build_dir_spec(*layout),
            "-DCMAKE_INSTALL_PREFIX="@ + self.prefix_spec(*layout),
            "-DCMAKE_BUILD_TYPE="@ + setting.build_type.name_spec(),
        ] + target_flags(views(setting.target@)));
        let mut i: usize = 0;
        while i < setting.option.len()
            invariant
                i <= setting.option@.len(),
                views(opts@) == head + setting.option@.subrange(0, i as int).map_values(
                    |kv: (String, String)| option_flag(kv),
                ),
            decreases setting.option@.len() - i,
        {
            let (k, v) = &setting.option[i];
            let mut flag = concat("-D", k.as_str());
            flag.append("=");
            flag.append(v.as_str());
            assert(flag@ == option_flag(setting.option@[i as int]));
            let ghost before = opts@;
            opts.push(flag);
            assert(views(opts@) =~= views(before).push(option_flag(setting.option@[i as int])));
            assert(setting.option@.subrange(0, i + 1) =~= setting.option@.subrange(0, i as int).push(
                setting.option@[i as int],
            ));
            assert(views(opts@) =~= head + setting.option@.subrange(0, i + 1).map_values(
                |kv: (String, String)| option_flag(kv),
            ));
            i = i + 1;
        }
        assert(setting.option@.subrange(0, i as int) =~= setting.option@);
        opts
    }

    pub fn build_args(&self, layout: &Layout, nproc: usize) -> (r: Vec<String>)
        ensures
            views(r@) == self.build_spec(*layout, nproc as nat),
    {
        let mut args: Vec<String> = Vec::new();
        args.push(String::from_str("--build"));
        args.push(self.build_dir(layout));
        args.push(String::from_str("--target"));
        args.push(String::from_str("install"));
        let mut extra = self.setting().builder.build_option(nproc);
        let ghost a = args@;
        let ghost x = extra@;
        args.append(&mut extra);
        assert(views(args@) =~= views(a) + views(x));
        assert(views(a) =~= seq!["--build"@, self.build_dir_spec(*layout), "--target"@, "install"@]);
        args
    }

    /// How many directories checkout probes: the main source, then each tool
    /// in order for a remote entry; the local path alone for a local one.
    pub open spec fn checkout_len_spec(self) -> nat {
        match self {
            Entry::Remote { tools, .. } => tools@.len() + 1,
            Entry::Local { .. } => 1,
        }
    }

    /// The directory that checkout probes at `step`.
    pub open spec fn target_spec(self, layout: Layout, step: nat) -> Seq<char> {
        match self {
            Entry::Remote { tools, .. } => if step == 0 {
                self.src_dir_spec(layout)
            } else {
                join_spec(self.src_dir_spec(layout), tools@[step - 1].rel_path_spec())
            },
            Entry::Local { path, .. } => path@,
        }
    }

    /// Where the source of step `step` is fetched from (remote entries).
    pub open spec fn url_spec(self, step: nat) -> Seq<char> {
        match self {
            Entry::Remote { url, tools, .. } => if step == 0 {
                url@
            } else {
                tools@[step - 1].url@
            },
            Entry::Local { .. } => seq![],
        }
    }

    /// Whether `r` is the decision of checkout at `step`, given whether the
    /// probed directory exists: nothing when it does; otherwise a fetch of
    /// the step's source into it for a remote entry, and `NotADirectory` for
    /// a local one.
    pub open spec fn checkout_outcome(
        self,
        layout: Layout,
        step: nat,
        is_dir: bool,
        r: Result<Option<Fetch>, EntryError>,
    ) -> bool {
        if is_dir {
            r == Ok::<Option<Fetch>, EntryError>(None)
        } else {
            match self {
                Entry::Remote { .. } => match r {
                    Ok(Some(f)) => f.url@ == self.url_spec(step) && f.dest@ == self.target_spec(
                        layout,
                        step,
                    ),
                    _ => false,
                },
                Entry::Local { path, .. } => match r {
                    Err(EntryError::NotADirectory(p)) => p == path,
                    _ => false,
                },
            }
        }
    }

    /// Whether checkout has probed every directory once `step` steps are done.
    pub fn checkout_done(&self, step: usize) -> (r: bool)
        ensures
            r == (step >= self.checkout_len_spec()),
    {
        match self {
            Entry::Remote { tools, .. } => step > tools.len(),
            Entry::Local { .. } => step > 0,
        }
    }

    /// The directory to probe at `step` of checkout.
    pub fn checkout_target(&self, layout: &Layout, step: usize) -> (r: String)
        requires
            step < self.checkout_len_spec(),
        ensures
            r@ == self.target_spec(*layout, step as nat),
    {
        match self {
            Entry::Remote { tools, .. } => {
                let src = self.src_dir(layout);
                if step == 0 {
                    src
                } else {
                    let rel = tools[step - 1].rel_path();
                    join(src.as_str(), rel.as_str())
                }
            },
            Entry::Local { path, .. } => path.clone(),
        }
    }

    /// What checkout does at `step`, once the caller has probed whether the
    /// step's directory exists. Directories that exist are never fetched
    /// again, so a checkout that failed half way resumes where it stopped.
    pub fn checkout_step(&self, layout: &Layout, step: usize, is_dir: bool) -> (r: Result<
        Option<Fetch>,
        EntryError,
    >)
        requires
            step < self.checkout_len_spec(),
        ensures
            self.checkout_outcome(*layout, step as nat, is_dir, r),
    {
        if is_dir {
            return Ok(None);
        }
        match self {
            Entry::Remote { url, tools, .. } => {
                let dest = self.checkout_target(layout, step);
                let url = if step == 0 {
                    url.clone()
                } else {
                    tools[step - 1].url.clone()
                };
                Ok(Some(Fetch { url, dest }))
            },
            Entry::Local { path, .. } => Err(EntryError::NotADirectory(path.clone())),
        }
    }

    /// The sources that update refreshes, in order: the main source, then
    /// each tool, for a remote entry; none for a local one. Nothing is
    /// probed first.
    pub fn update_targets(&self, layout: &Layout) -> (r: Vec<Fetch>)
        ensures
            r@.len() == match *self {
                Entry::Remote { .. } => self.checkout_len_spec(),
                Entry::Local { .. } => 0,
            },
            self is Remote ==> forall|i: int|
                0 <= i < r@.len() ==> (#[trigger] r@[i]).url@ == self.url_spec(i as nat) && r@[i].dest@
                    == self.target_spec(*layout, i as nat),
    {
        let mut v: Vec<Fetch> = Vec::new();
        match self {
            Entry::Remote { url, tools, .. } => {
                let src = self.src_dir(layout);
                v.push(Fetch { url: url.clone(), dest: src.clone() });
                let mut i: usize = 0;
                while i < tools.len()
                    invariant
                        self is Remote,
                        *tools == self->Remote_tools,
                        src@ == self.src_dir_spec(*layout),
                        i <= tools@.len(),
                        v@.len() == i + 1,
                        forall|j: int|
                            0 <= j < v@.len() ==> (#[trigger] v@[j]).url@ == self.url_spec(j as nat)
                                && v@[j].dest@ == self.target_spec(*layout, j as nat),
                    decreases tools@.len() - i,
                {
                    let tool: &Tool = &tools[i];
                    let rel = tool.rel_path();
                    v.push(Fetch { url: tool.url.clone(), dest: join(src.as_str(), rel.as_str()) });
                    i = i + 1;
                }
            },
            Entry::Local { .. } => {},
        }
        v
    }
}

} // verus!
