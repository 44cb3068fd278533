//! The rule-based matcher. A rule recognizes a directory by what surrounds
//! it: the named target directory must be present in a parent's listing,
//! every required sibling must co-exist in that listing, and no excluded
//! sibling may. A rule set tries its rules in order and the first match
//! wins; it also carries the set of shallow names whose contents the
//! scanner must not descend into.

use vstd::prelude::*;

verus! {

/// The per-element views of a sequence of strings.
pub open spec fn names(v: Seq<String>) -> Seq<Seq<char>> {
    Seq::new(v.len(), |i: int| v[i]@)
}

/// One matching rule: recognize a directory called `target` when every name
/// in `contains_files_dirs` is among its siblings (directories or files)
/// and no name in `excludes_files_dirs` is. `prefix` is the display label
/// copied onto each candidate the rule produces.
#[derive(Debug)]
pub struct Checker {
    pub target: String,
    pub contains_files_dirs: Vec<String>,
    pub excludes_files_dirs: Vec<String>,
    pub prefix: String,
}

impl Checker {
    /// Whether this rule recognizes a directory inside the parent listing
    /// given by the directory names `dirs` and file names `files`.
    pub open spec fn spec_matches(self, dirs: Seq<Seq<char>>, files: Seq<Seq<char>>) -> bool {
        &&& dirs.contains(self.target@)
        &&& forall|i: int|
            0 <= i < self.contains_files_dirs@.len() ==> dirs.contains(
                #[trigger] self.contains_files_dirs@[i]@,
            ) || files.contains(self.contains_files_dirs@[i]@)
        &&& forall|i: int|
            0 <= i < self.excludes_files_dirs@.len() ==> !dirs.contains(
                #[trigger] self.excludes_files_dirs@[i]@,
            ) && !files.contains(self.excludes_files_dirs@[i]@)
    }

    /// Evaluates this rule against a parent listing: `dirs` holds the names
    /// of the child directories and `files` the names of the child files.
    pub fn check(&self, dirs: &Vec<String>, files: &Vec<String>) -> (r: bool)
        ensures
            r == self.spec_matches(names(dirs@), names(files@)),
    {
        if !contains_name(dirs, &self.target) {
            return false;
        }
        let mut i: usize = 0;
        while i < self.contains_files_dirs.len()
            invariant
                i <= self.contains_files_dirs@.len(),
                forall|k: int|
                    0 <= k < i ==> names(dirs@).contains(
                        #[trigger] self.contains_files_dirs@[k]@,
                    ) || names(files@).contains(self.contains_files_dirs@[k]@),
            decreases self.contains_files_dirs@.len() - i,
        {
            let name = &self.contains_files_dirs[i];
            if !contains_name(dirs, name) && !contains_name(files, name) {
                return false;
            }
            i += 1;
        }
        let mut i: usize = 0;
        while i < self.excludes_files_dirs.len()
            invariant
                i <= self.excludes_files_dirs@.len(),
                forall|k: int|
                    0 <= k < i ==> !names(dirs@).contains(
                        #[trigger] self.excludes_files_dirs@[k]@,
                    ) && !names(files@).contains(self.excludes_files_dirs@[k]@),
            decreases self.excludes_files_dirs@.len() - i,
        {
            let name = &self.excludes_files_dirs[i];
            if contains_name(dirs, name) || contains_name(files, name) {
                return false;
            }
            i += 1;
        }
        true
    }
}

/// The first rule of `rules`, in order, that matches the listing, together
/// with its label prefix and target name; `None` when no rule qualifies.
pub open spec fn first_match(
    rules: Seq<Checker>,
    dirs: Seq<Seq<char>>,
    files: Seq<Seq<char>>,
) -> Option<(Seq<char>, Seq<char>)>
    decreases rules.len(),
{
    if rules.len() == 0 {
        None
    } else if rules[0].spec_matches(dirs, files) {
        Some((rules[0].prefix@, rules[0].target@))
    } else {
        first_match(rules.drop_first(), dirs, files)
    }
}

/// An ordered rule set together with the names of the directories that the
/// scanner must not descend into once it has seen them.
#[derive(Debug)]
pub struct ConfigChecker {
    pub includes: Vec<Checker>,
    pub shallow: Vec<String>,
}

impl ConfigChecker {
    /// Tries the rules in configured order against the parent listing and
    /// returns the first one that matches, as its label prefix and its
    /// target directory name.
    pub fn check(&self, dirs: &Vec<String>, files: &Vec<String>) -> (r: Option<(String, String)>)
        ensures
            match r {
                Some(pt) => first_match(self.includes@, names(dirs@), names(files@)) == Some(
                    (pt.0@, pt.1@),
                ),
                None => first_match(self.includes@, names(dirs@), names(files@)) is None,
            },
    {
        let ghost d = names(dirs@);
        let ghost f = names(files@);
        let mut i: usize = 0;
        proof {
            assert(self.includes@.skip(0) =~= self.includes@);
        }
        while i < self.includes.len()
            invariant
                i <= self.includes@.len(),
                d == names(dirs@),
                f == names(files@),
                first_match(self.includes@, d, f) == first_match(
                    self.includes@.skip(i as int),
                    d,
                    f,
                ),
            decreases self.includes@.len() - i,
        {
            let checker = &self.includes[i];
            proof {
                assert(self.includes@.skip(i as int)[0] == self.includes@[i as int]);
            }
            if checker.check(dirs, files) {
                return Some((checker.prefix.clone(), checker.target.clone()));
            }
            proof {
                assert(self.includes@.skip(i as int).drop_first() =~= self.includes@.skip(
                    i as int + 1,
                ));
            }
            i += 1;
        }
        None
    }

    /// Whether `file` names a directory that the scanner must treat as
    /// shallow: it may still become a candidate, but its contents are never
    /// scanned.
    pub fn is_shallow(&self, file: &String) -> (r: bool)
        ensures
            r == names(self.shallow@).contains(file@),
    {
        contains_name(&self.shallow, file)
    }

    /// The built-in rule set used when no configuration document can be
    /// read: the Node dependency-cache rule, the Rust build-artifact rule,
    /// and `node_modules` as the one shallow name.
    pub fn default_config() -> (r: ConfigChecker)
        ensures
            is_default_config(r),
    {
        let mut node_contains: Vec<String> = Vec::new();
        node_contains.push("package.json".to_owned());
        let checker_node = Checker {
            target: "node_modules".to_owned(),
            contains_files_dirs: node_contains,
            excludes_files_dirs: Vec::new(),
            prefix: "[Node]".to_owned(),
        };
        let mut rust_contains: Vec<String> = Vec::new();
        rust_contains.push("Cargo.toml".to_owned());
        let checker_rust = Checker {
            target: "target".to_owned(),
            contains_files_dirs: rust_contains,
            excludes_files_dirs: Vec::new(),
            prefix: "[Rust]".to_owned(),
        };
        let mut includes: Vec<Checker> = Vec::new();
        includes.push(checker_node);
        includes.push(checker_rust);
        let mut shallow: Vec<String> = Vec::new();
        shallow.push("node_modules".to_owned());
        ConfigChecker { includes, shallow }
    }

    /// The startup decision around loading the rule-set document: callers
    /// report whether the well-known location exists (`path_found`) and
    /// what a load attempt from it produced (`loaded`, `None` when the
    /// document was absent or unparsable), and are told how to proceed.
    /// A missing location is fatal; a failed load is repaired once by
    /// persisting the built-in default document and loading again.
    pub fn load_init(path_found: bool, loaded: Option<ConfigChecker>) -> (r: LoadStep)
        ensures
            !path_found ==> r is NoConfigPath,
            path_found ==> match loaded {
                Some(c) => r == LoadStep::UseConfig(c),
                None => (r matches LoadStep::RepairWithDefault(d) && is_default_config(d)),
            },
    {
        if !path_found {
            LoadStep::NoConfigPath
        } else {
            match loaded {
                Some(c) => LoadStep::UseConfig(c),
                None => LoadStep::RepairWithDefault(Self::default_config()),
            }
        }
    }
}

/// What to do next after an attempt to load the rule-set document.
#[derive(Debug)]
pub enum LoadStep {
    /// The document loaded; proceed with this rule set.
    UseConfig(ConfigChecker),
    /// The document was absent or unparsable: persist this default rule
    /// set at the well-known location, then load again. A second failure
    /// is fatal.
    RepairWithDefault(ConfigChecker),
    /// There is no well-known location to load from; the system cannot
    /// proceed.
    NoConfigPath,
}

/// `c` is exactly the built-in default rule set.
pub open spec fn is_default_config(c: ConfigChecker) -> bool {
    &&& c.includes@.len() == 2
    &&& is_node_rule(c.includes@[0])
    &&& is_rust_rule(c.includes@[1])
    &&& c.shallow@.len() == 1
    &&& c.shallow@[0]@ == "node_modules"@
}

/// `r` is the built-in rule recognizing a Node dependency cache: a
/// `node_modules` directory beside a `package.json`.
pub open spec fn is_node_rule(r: Checker) -> bool {
    &&& r.target@ == "node_modules"@
    &&& r.contains_files_dirs@.len() == 1
    &&& r.contains_files_dirs@[0]@ == "package.json"@
    &&& r.excludes_files_dirs@.len() == 0
    &&& r.prefix@ == "[Node]"@
}

/// `r` is the built-in rule recognizing a Rust build-artifact directory: a
/// `target` directory beside a `Cargo.toml`.
pub open spec fn is_rust_rule(r: Checker) -> bool {
    &&& r.target@ == "target"@
    &&& r.contains_files_dirs@.len() == 1
    &&& r.contains_files_dirs@[0]@ == "Cargo.toml"@
    &&& r.excludes_files_dirs@.len() == 0
    &&& r.prefix@ == "[Rust]"@
}

/// Whether the listing `v` holds a name whose characters are those of `x`.
pub fn contains_name(v: &Vec<String>, x: &String) -> (r: bool)
    ensures
        r == names(v@).contains(x@),
{
    let mut j: usize = 0;
    while j < v.len()
        invariant
            j <= v@.len(),
            forall|k: int| 0 <= k < j ==> names(v@)[k] != x@,
        decreases v@.len() - j,
    {
        if v[j] == *x {
            assert(names(v@)[j as int] == x@);
            return true;
        }
        j += 1;
    }
    assert(!names(v@).contains(x@));
    false
}

} // verus!
