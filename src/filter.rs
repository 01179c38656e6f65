use vstd::prelude::*;
use ignore::gitignore::{Gitignore, GitignoreBuilder};
use crate::event::{ChangeEvent, EventPath};

verus! {

#[verifier::external_type_specification]
#[verifier::external_body]
pub struct ExGitignore(Gitignore);

#[verifier::external_type_specification]
#[verifier::external_body]
pub struct ExGitignoreBuilder(GitignoreBuilder);

#[verifier::external_type_specification]
#[verifier::external_body]
pub struct ExIgnoreError(ignore::Error);

/// The directory a gitignore builder was created with; its rules match
/// relative to it.
pub uninterp spec fn builder_origin(b: GitignoreBuilder) -> Seq<char>;

/// The rule lines a gitignore builder has accepted so far, in order.
pub uninterp spec fn builder_lines(b: GitignoreBuilder) -> Seq<Seq<char>>;

/// The directory a gitignore matcher's rules match relative to.
pub uninterp spec fn matcher_origin(g: Gitignore) -> Seq<char>;

/// The rule lines a gitignore matcher was built from, in order.
pub uninterp spec fn matcher_lines(g: Gitignore) -> Seq<Seq<char>>;

/// Whether one gitignore line is accepted (comments and blank lines are;
/// otherwise the line has to parse as a glob).
pub uninterp spec fn gitignore_line_parses(line: Seq<char>) -> bool;

/// Whether the globs of these gitignore lines compile into one glob set.
pub uninterp spec fn gitignore_set_compiles(lines: Seq<Seq<char>>) -> bool;

/// Whether the gitignore rules `lines`, anchored at `origin`, ignore `path`:
/// the last rule matching it (directory-only rules only for directories) is
/// a plain rule, not a `!` negation.
pub uninterp spec fn gitignore_ignores(
    origin: Seq<char>,
    lines: Seq<Seq<char>>,
    path: Seq<char>,
    is_dir: bool,
) -> bool;

/// The extension of a path's file name: what follows its last `.`, if the
/// name has one that does not merely start it.
pub uninterp spec fn path_extension(path: Seq<char>) -> Option<Seq<char>>;

/// Relies on `GitignoreBuilder::new`: an empty builder rooted at `origin`.
#[verifier::external_body]
fn gitignore_builder(origin: &str) -> (r: GitignoreBuilder)
    ensures
        builder_origin(r) == origin@,
        builder_lines(r) == Seq::<Seq<char>>::empty(),
{
    GitignoreBuilder::new(origin)
}

/// Relies on `GitignoreBuilder::add_line`: the line is kept when it parses,
/// and the builder is left as it was when it does not.
#[verifier::external_body]
fn gitignore_add_line(b: &mut GitignoreBuilder, anchor: Option<&str>, line: &str) -> (r: Result<
    (),
    ignore::Error,
>)
    ensures
        r is Ok <==> gitignore_line_parses(line@),
        builder_origin(*final(b)) == builder_origin(*old(b)),
        builder_lines(*final(b)) == (if r is Ok {
            builder_lines(*old(b)).push(line@)
        } else {
            builder_lines(*old(b))
        }),
{
    b.add_line(anchor.map(std::path::PathBuf::from), line).map(|_| ())
}

/// Relies on `GitignoreBuilder::build`: a matcher over the lines added so
/// far, unless their globs fail to compile together.
#[verifier::external_body]
fn gitignore_build(b: &GitignoreBuilder) -> (r: Result<Gitignore, ignore::Error>)
    ensures
        r is Ok <==> gitignore_set_compiles(builder_lines(*b)),
        r matches Ok(g) ==> matcher_origin(g) == builder_origin(*b) && matcher_lines(g)
            == builder_lines(*b),
{
    b.build()
}

/// Relies on `Gitignore::matched` and `Match::is_ignore`: whether the
/// matcher's verdict on the path is "ignore".
#[verifier::external_body]
fn gitignore_matched(g: &Gitignore, path: &str, is_dir: bool) -> (r: bool)
    ensures
        r == gitignore_ignores(matcher_origin(*g), matcher_lines(*g), path@, is_dir),
{
    g.matched(path, is_dir).is_ignore()
}

/// Relies on `Path::extension`: the extension of the path's file name.
#[verifier::external_body]
fn extension_of(path: &str) -> (r: Option<String>)
    ensures
        match r {
            Some(e) => path_extension(path@) == Some(e@),
            None => path_extension(path@) is None,
        },
{
    std::path::Path::new(path).extension().and_then(|e| e.to_str()).map(String::from)
}

/// One gitignore-style rule line, with the directory it came from, if any.
pub struct Rule {
    pub pattern: String,
    pub anchor: Option<String>,
}

impl Rule {
    pub fn new(pattern: String, anchor: Option<String>) -> (r: Self)
        ensures
            r.pattern@ == pattern@,
            r.anchor == anchor,
    {
        Rule { pattern, anchor }
    }
}

/// The pattern lines of a list of rules.
pub open spec fn rule_lines(rules: Seq<Rule>) -> Seq<Seq<char>> {
    rules.map_values(|r: Rule| r.pattern@)
}

/// Every line is accepted by the gitignore parser.
pub open spec fn all_lines_parse(lines: Seq<Seq<char>>) -> bool {
    forall|i: int| 0 <= i < lines.len() ==> gitignore_line_parses(#[trigger] lines[i])
}

/// `index` is the first line that the gitignore parser refuses.
pub open spec fn first_bad_line(lines: Seq<Seq<char>>, index: int) -> bool {
    &&& 0 <= index < lines.len()
    &&& !gitignore_line_parses(lines[index])
    &&& all_lines_parse(lines.subrange(0, index))
}

/// Why building a filterer failed.
#[derive(Debug)]
pub enum FilterError {
    /// The filter rule at `index` is not a valid pattern.
    Filter { index: usize, cause: ignore::Error },
    /// The ignore rule at `index` is not a valid pattern.
    Ignore { index: usize, cause: ignore::Error },
    /// The rules parsed one by one but did not compile into a matcher.
    Build { cause: ignore::Error },
}

/// Why a path was found irrelevant.
#[derive(Clone, Copy, Debug, PartialEq, Eq, Structural)]
pub enum Rejection {
    /// An ignore rule matched it.
    Ignored,
    /// Filter rules exist and none of them admitted it.
    NotFiltered,
    /// Its extension is not in the extension set.
    ExtensionMismatch,
}

/// Built-in ignore rules: compiled Python, swap files, and everything inside
/// a directory whose name starts with a dot, at any depth.
pub open spec fn default_ignore_patterns() -> Seq<Seq<char>> {
    seq!["*.pyc"@, "*.swp"@, "**/.*/**"@]
}

/// The built-in ignore rules, unanchored.
pub fn default_ignore_rules() -> (r: Vec<Rule>)
    ensures
        r@.len() == 3,
        rule_lines(r@) == default_ignore_patterns(),
        forall|i: int| 0 <= i < r@.len() ==> (#[trigger] r@[i]).anchor is None,
{
    let r = vec![
        Rule { pattern: String::from_str("*.pyc"), anchor: None },
        Rule { pattern: String::from_str("*.swp"), anchor: None },
        Rule { pattern: String::from_str("**/.*/**"), anchor: None },
    ];
    assert(rule_lines(r@) =~= default_ignore_patterns());
    r
}

/// The built-in ignore rules followed by the user's own, so that a user rule
/// can negate a built-in one.
pub fn with_default_ignores(user: Vec<Rule>) -> (r: Vec<Rule>)
    ensures
        rule_lines(r@) == default_ignore_patterns() + rule_lines(user@),
        r@.subrange(3, r@.len() as int) == user@,
{
    let mut r = default_ignore_rules();
    let mut rest = user;
    r.append(&mut rest);
    assert(r@.subrange(3, r@.len() as int) =~= user@);
    assert(rule_lines(r@) =~= default_ignore_patterns() + rule_lines(user@));
    r
}

/// Adds each rule's line to the builder, stopping at the first one refused.
fn add_rules(b: &mut GitignoreBuilder, rules: &Vec<Rule>) -> (r: Result<(), (usize, ignore::Error)>)
    ensures
        builder_origin(*final(b)) == builder_origin(*old(b)),
        r is Ok <==> all_lines_parse(rule_lines(rules@)),
        r is Ok ==> builder_lines(*final(b)) == builder_lines(*old(b)) + rule_lines(rules@),
        r matches Err((index, _)) ==> first_bad_line(rule_lines(rules@), index as int),
{
    let ghost lines = rule_lines(rules@);
    let mut i: usize = 0;
    while i < rules.len()
        invariant
            0 <= i <= rules.len(),
            lines == rule_lines(rules@),
            builder_origin(*b) == builder_origin(*old(b)),
            builder_lines(*b) == builder_lines(*old(b)) + lines.subrange(0, i as int),
            all_lines_parse(lines.subrange(0, i as int)),
        decreases rules.len() - i,
    {
        let rule = &rules[i];
        let anchor = match &rule.anchor {
            Some(a) => Some(a.as_str()),
            None => None,
        };
        let added = gitignore_add_line(b, anchor, rule.pattern.as_str());
        match added {
            Ok(()) => {},
            Err(cause) => {
                assert(lines[i as int] == rule.pattern@);
                return Err((i, cause));
            },
        }
        proof {
            assert(lines.subrange(0, i + 1) =~= lines.subrange(0, i as int).push(lines[i as int]));
            assert forall|k: int| 0 <= k < i + 1 implies gitignore_line_parses(
                #[trigger] lines.subrange(0, i + 1)[k],
            ) by {
                if k < i {
                    assert(lines.subrange(0, i + 1)[k] == lines.subrange(0, i as int)[k]);
                }
            }
        }
        i += 1;
    }
    assert(lines.subrange(0, i as int) =~= lines);
    Ok(())
}

/// Decides whether changed paths are relevant, from gitignore-style filter
/// and ignore rules and a set of file extensions. Built once, never changed.
pub struct GlobsetFilterer {
    filters: Gitignore,
    ignores: Gitignore,
    has_filters: bool,
    extensions: Vec<String>,
}

impl GlobsetFilterer {
    #[verifier::type_invariant]
    spec fn inv(&self) -> bool {
        self.has_filters == (matcher_lines(self.filters).len() > 0)
    }

    /// The directory the filter rules match relative to.
    pub closed spec fn filter_origin(&self) -> Seq<char> {
        matcher_origin(self.filters)
    }

    /// The filter (whitelist) rule lines.
    pub closed spec fn filter_lines(&self) -> Seq<Seq<char>> {
        matcher_lines(self.filters)
    }

    /// The directory the ignore rules match relative to.
    pub closed spec fn ignore_origin(&self) -> Seq<char> {
        matcher_origin(self.ignores)
    }

    /// The ignore rule lines.
    pub closed spec fn ignore_lines(&self) -> Seq<Seq<char>> {
        matcher_lines(self.ignores)
    }

    /// The accepted extensions, without their leading dot.
    pub closed spec fn extension_set(&self) -> Seq<Seq<char>> {
        self.extensions@.map_values(|e: String| e@)
    }

    /// The ignore rules exclude the path.
    pub open spec fn ignores_path(&self, path: Seq<char>, is_dir: bool) -> bool {
        gitignore_ignores(self.ignore_origin(), self.ignore_lines(), path, is_dir)
    }

    /// The filter rules admit the path (their net verdict on it is a match).
    pub open spec fn filters_admit(&self, path: Seq<char>, is_dir: bool) -> bool {
        gitignore_ignores(self.filter_origin(), self.filter_lines(), path, is_dir)
    }

    /// The path is a file whose extension is outside a non-empty extension
    /// set. Directories and files without an extension never are.
    pub open spec fn extension_mismatch(&self, path: Seq<char>, is_dir: bool) -> bool {
        &&& self.extension_set().len() > 0
        &&& !is_dir
        &&& match path_extension(path) {
            Some(e) => !self.extension_set().contains(e),
            None => false,
        }
    }

    /// The verdict on one path: ignore rules first, then filter rules (only
    /// when there are any), then the extension set.
    pub open spec fn path_verdict(&self, path: Seq<char>, is_dir: bool) -> Option<Rejection> {
        if self.ignores_path(path, is_dir) {
            Some(Rejection::Ignored)
        } else if self.filter_lines().len() > 0 && !self.filters_admit(path, is_dir) {
            Some(Rejection::NotFiltered)
        } else if self.extension_mismatch(path, is_dir) {
            Some(Rejection::ExtensionMismatch)
        } else {
            None
        }
    }

    /// An event is relevant when every one of its paths is (so always when
    /// it names none).
    pub open spec fn accepts(&self, paths: Seq<EventPath>) -> bool {
        forall|i: int|
            0 <= i < paths.len() ==> (#[trigger] self.path_verdict(paths[i].path@, paths[i].is_dir))
                is None
    }

    /// Builds a filterer from filter rules, ignore rules and extensions, all
    /// rules matching relative to `origin`. Fails on the first filter rule,
    /// then the first ignore rule, that does not parse, and otherwise when a
    /// rule list does not compile into a matcher.
    pub fn new(
        origin: &str,
        filters: &Vec<Rule>,
        ignores: &Vec<Rule>,
        extensions: &Vec<String>,
    ) -> (r: Result<Self, FilterError>)
        ensures
            r is Ok <==> (all_lines_parse(rule_lines(filters@)) && all_lines_parse(
                rule_lines(ignores@),
            ) && gitignore_set_compiles(rule_lines(filters@)) && gitignore_set_compiles(
                rule_lines(ignores@),
            )),
            r matches Ok(f) ==> {
                &&& f.filter_origin() == origin@
                &&& f.ignore_origin() == origin@
                &&& f.filter_lines() == rule_lines(filters@)
                &&& f.ignore_lines() == rule_lines(ignores@)
                &&& f.extension_set() == extensions@.map_values(|e: String| e@)
            },
            r matches Err(FilterError::Filter { index, .. }) ==> first_bad_line(
                rule_lines(filters@),
                index as int,
            ),
            r matches Err(FilterError::Ignore { index, .. }) ==> all_lines_parse(
                rule_lines(filters@),
            ) && first_bad_line(rule_lines(ignores@), index as int),
            r matches Err(FilterError::Build { .. }) ==> all_lines_parse(rule_lines(filters@))
                && all_lines_parse(rule_lines(ignores@)),
    {
        let mut filters_builder = gitignore_builder(origin);
        let mut ignores_builder = gitignore_builder(origin);
        match add_rules(&mut filters_builder, filters) {
            Ok(()) => {},
            Err((index, cause)) => {
                return Err(FilterError::Filter { index, cause });
            },
        }
        match add_rules(&mut ignores_builder, ignores) {
            Ok(()) => {},
            Err((index, cause)) => {
                proof {
                    assert(!all_lines_parse(rule_lines(ignores@)));
                }
                return Err(FilterError::Ignore { index, cause });
            },
        }
        assert(builder_lines(filters_builder) =~= rule_lines(filters@));
        assert(builder_lines(ignores_builder) =~= rule_lines(ignores@));
        let filters_matcher = match gitignore_build(&filters_builder) {
            Ok(g) => g,
            Err(cause) => {
                return Err(FilterError::Build { cause });
            },
        };
        let ignores_matcher = match gitignore_build(&ignores_builder) {
            Ok(g) => g,
            Err(cause) => {
                return Err(FilterError::Build { cause });
            },
        };
        let mut exts: Vec<String> = Vec::new();
        let mut i: usize = 0;
        while i < extensions.len()
            invariant
                0 <= i <= extensions.len(),
                exts@.len() == i,
                forall|k: int| 0 <= k < i ==> (#[trigger] exts@[k])@ == extensions@[k]@,
            decreases extensions.len() - i,
        {
            exts.push(extensions[i].clone());
            i += 1;
        }
        assert(exts@.map_values(|e: String| e@) =~= extensions@.map_values(|e: String| e@));
        let has_filters = filters.len() > 0;
        Ok(GlobsetFilterer {
            filters: filters_matcher,
            ignores: ignores_matcher,
            has_filters,
            extensions: exts,
        })
    }

    /// Whether the extension is one of the accepted ones (exact,
    /// case-sensitive comparison).
    fn has_extension(&self, ext: &String) -> (r: bool)
        ensures
            r == self.extension_set().contains(ext@),
    {
        let mut j: usize = 0;
        while j < self.extensions.len()
            invariant
                0 <= j <= self.extensions.len(),
                forall|k: int| 0 <= k < j ==> (#[trigger] self.extensions@[k])@ != ext@,
            decreases self.extensions.len() - j,
        {
            if self.extensions[j] == *ext {
                assert(self.extension_set()[j as int] == ext@);
                return true;
            }
            j += 1;
        }
        proof {
            if self.extension_set().contains(ext@) {
                let k = choose|k: int| 0 <= k < self.extension_set().len() && self.extension_set()[k] == ext@;
                assert(self.extensions@[k]@ == ext@);
            }
        }
        false
    }

    /// The verdict on one path: `None` when it is relevant, otherwise the
    /// first reason it is not.
    pub fn check_path(&self, p: &EventPath) -> (r: Option<Rejection>)
        ensures
            r == self.path_verdict(p.path@, p.is_dir),
    {
        proof {
            use_type_invariant(self);
        }
        let path = p.path.as_str();
        if gitignore_matched(&self.ignores, path, p.is_dir) {
            return Some(Rejection::Ignored);
        }
        if self.has_filters && !gitignore_matched(&self.filters, path, p.is_dir) {
            return Some(Rejection::NotFiltered);
        }
        if self.extensions.len() > 0 && !p.is_dir {
            match extension_of(path) {
                Some(ext) => {
                    if !self.has_extension(&ext) {
                        return Some(Rejection::ExtensionMismatch);
                    }
                },
                None => {},
            }
        }
        None
    }

    /// The first of the event's paths that is not relevant, with the reason,
    /// or `None` when the event is relevant.
    pub fn first_rejection(&self, event: &ChangeEvent) -> (r: Option<(usize, Rejection)>)
        ensures
            match r {
                None => self.accepts(event.paths@),
                Some((i, why)) => {
                    &&& i < event.paths@.len()
                    &&& self.path_verdict(event.paths@[i as int].path@, event.paths@[i as int].is_dir)
                        == Some(why)
                    &&& self.accepts(event.paths@.subrange(0, i as int))
                },
            },
    {
        let mut i: usize = 0;
        while i < event.paths.len()
            invariant
                0 <= i <= event.paths.len(),
                self.accepts(event.paths@.subrange(0, i as int)),
            decreases event.paths.len() - i,
        {
            match self.check_path(&event.paths[i]) {
                Some(why) => {
                    return Some((i, why));
                },
                None => {},
            }
            proof {
                let done = event.paths@.subrange(0, i + 1);
                assert forall|k: int| 0 <= k < done.len() implies (#[trigger] self.path_verdict(
                    done[k].path@,
                    done[k].is_dir,
                )) is None by {
                    if k < i {
                        assert(done[k] == event.paths@.subrange(0, i as int)[k]);
                    }
                }
            }
            i += 1;
        }
        assert(event.paths@.subrange(0, i as int) =~= event.paths@);
        None
    }

    /// Whether the event is relevant: every path it names passes.
    pub fn check_event(&self, event: &ChangeEvent) -> (r: bool)
        ensures
            r == self.accepts(event.paths@),
    {
        match self.first_rejection(event) {
            None => true,
            Some((i, _)) => false,
        }
    }
}

/// A path that the ignore rules exclude is rejected, whatever the filter
/// rules and the extension set say, and so is every event that names it.
pub proof fn lemma_ignored_path_rejected(f: GlobsetFilterer, paths: Seq<EventPath>, i: int)
    requires
        0 <= i < paths.len(),
        f.ignores_path(paths[i].path@, paths[i].is_dir),
    ensures
        f.path_verdict(paths[i].path@, paths[i].is_dir) == Some(Rejection::Ignored),
        !f.accepts(paths),
{
}

/// With filter rules present, a path they do not admit is rejected, and so is
/// every event that names it; with no filter rules, the filter rules play no
/// part in any verdict.
pub proof fn lemma_filter_rules(f: GlobsetFilterer, paths: Seq<EventPath>, i: int)
    requires
        0 <= i < paths.len(),
    ensures
        f.filter_lines().len() > 0 && !f.filters_admit(paths[i].path@, paths[i].is_dir) ==> {
            &&& f.path_verdict(paths[i].path@, paths[i].is_dir) is Some
            &&& !f.accepts(paths)
        },
        f.filter_lines().len() == 0 ==> f.path_verdict(paths[i].path@, paths[i].is_dir) == (
        if f.ignores_path(paths[i].path@, paths[i].is_dir) {
            Some(Rejection::Ignored)
        } else if f.extension_mismatch(paths[i].path@, paths[i].is_dir) {
            Some(Rejection::ExtensionMismatch)
        } else {
            None
        }),
{
    if f.filter_lines().len() > 0 && !f.filters_admit(paths[i].path@, paths[i].is_dir) {
        assert(f.path_verdict(paths[i].path@, paths[i].is_dir) is Some);
    }
}

/// The extension set never rejects a directory or a file without an
/// extension; when it is non-empty it rejects a file whose extension is not in
/// it, unless the rules already rejected the file.
pub proof fn lemma_extension_rules(f: GlobsetFilterer, path: Seq<char>, is_dir: bool)
    ensures
        is_dir ==> f.path_verdict(path, is_dir) != Some(Rejection::ExtensionMismatch),
        path_extension(path) is None ==> f.path_verdict(path, is_dir) != Some(
            Rejection::ExtensionMismatch,
        ),
        f.extension_set().len() > 0 && !is_dir && path_extension(path) is Some
            && !f.extension_set().contains(path_extension(path)->Some_0) ==> f.path_verdict(
            path,
            is_dir,
        ) is Some,
        f.extension_set().len() > 0 && !is_dir && path_extension(path) is Some
            && !f.extension_set().contains(path_extension(path)->Some_0) && !f.ignores_path(
            path,
            is_dir,
        ) && (f.filter_lines().len() == 0 || f.filters_admit(path, is_dir)) ==> f.path_verdict(
            path,
            is_dir,
        ) == Some(Rejection::ExtensionMismatch),
{
}

} // verus!
