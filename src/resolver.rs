//! Locating the worker's entry point on disk.
use vstd::prelude::*;

verus! {

/// `rel` appended to `base` as a path component: nothing is inserted when
/// `base` is empty or already ends with a separator.
pub open spec fn joined(base: Seq<char>, rel: Seq<char>) -> Seq<char> {
    if base.len() == 0 || base.last() == '/' {
        base + rel
    } else {
        base + seq!['/'] + rel
    }
}

/// Lines joined by single newlines, without a trailing one.
pub open spec fn joined_lines(lines: Seq<Seq<char>>) -> Seq<char>
    decreases lines.len(),
{
    if lines.len() == 0 {
        Seq::empty()
    } else if lines.len() == 1 {
        lines[0]
    } else {
        joined_lines(lines.drop_last()) + seq!['\n'] + lines.last()
    }
}

/// Where line `i` starts within `joined_lines(lines)`.
pub open spec fn line_offset(lines: Seq<Seq<char>>, i: int) -> int
    decreases lines.len(),
{
    if lines.len() <= 1 || i == lines.len() - 1 {
        if lines.len() <= 1 {
            0
        } else {
            joined_lines(lines.drop_last()).len() as int + 1
        }
    } else {
        line_offset(lines.drop_last(), i)
    }
}

/// Line `i` stands, whole, at `line_offset(lines, i)` in the joined text.
pub proof fn lemma_line_in_joined(lines: Seq<Seq<char>>, i: int)
    requires
        0 <= i < lines.len(),
    ensures
        0 <= line_offset(lines, i),
        line_offset(lines, i) + lines[i].len() <= joined_lines(lines).len(),
        joined_lines(lines).subrange(line_offset(lines, i), line_offset(lines, i) + lines[i].len())
            == lines[i],
    decreases lines.len(),
{
    let j = joined_lines(lines);
    if lines.len() == 1 {
        assert(j.subrange(0, lines[0].len() as int) =~= lines[0]);
    } else if i == lines.len() - 1 {
        let n = joined_lines(lines.drop_last()).len() as int;
        assert(j.subrange(n + 1, n + 1 + lines[i].len()) =~= lines[i]);
    } else {
        let d = lines.drop_last();
        lemma_line_in_joined(d, i);
        let o = line_offset(d, i);
        assert(j.subrange(o, o + lines[i].len()) =~= joined_lines(d).subrange(o, o + d[i].len()));
    }
}

/// The views of a list of strings.
pub open spec fn views(v: Seq<String>) -> Seq<Seq<char>> {
    v.map_values(|s: String| s@)
}

/// The relative locations, from the development anchor directory, at which
/// the worker's script is looked for, in order.
pub open spec fn dev_offsets() -> Seq<Seq<char>> {
    seq!["../backend/main.py"@, "../../backend/main.py"@, "../../../backend/main.py"@]
}

/// The script's location below the bundled-resource directory.
pub open spec fn packaged_offset() -> Seq<char> {
    "backend/main.py"@
}

/// Why the worker's script could not be located.
pub enum ResolutionError {
    /// No development candidate exists; every path tried, in order.
    NotFound { tried: Vec<String> },
    /// The bundled-resource directory could not be determined.
    ResourceDirUnavailable { cause: String },
}

impl ResolutionError {
    /// The human-readable text of the error.
    pub open spec fn message_spec(&self) -> Seq<char> {
        match self {
            ResolutionError::NotFound { tried } => "main.py not found. Tried:\n"@ + joined_lines(
                views(tried@),
            ),
            ResolutionError::ResourceDirUnavailable { cause } => "resource_dir error: "@ + cause@,
        }
    }

    /// Every path that a `NotFound` error records appears, whole, in its
    /// message.
    pub proof fn lemma_message_lists_every_path(&self, i: int)
        requires
            self matches ResolutionError::NotFound { tried } && 0 <= i < tried@.len(),
        ensures
            self matches ResolutionError::NotFound { tried } && exists|k: int|
                0 <= k && k + tried@[i]@.len() <= self.message_spec().len()
                    && #[trigger] self.message_spec().subrange(k, k + tried@[i]@.len())
                    == tried@[i]@,
    {
        if let ResolutionError::NotFound { tried } = self {
            let lines = views(tried@);
            let head = "main.py not found. Tried:\n"@;
            lemma_line_in_joined(lines, i);
            let o = line_offset(lines, i);
            let k = head.len() as int + o;
            let m = self.message_spec();
            assert(m.subrange(k, k + lines[i].len()) =~= joined_lines(lines).subrange(
                o,
                o + lines[i].len(),
            ));
            assert(lines[i] == tried@[i]@);
        }
    }

    /// Renders the error as text.
    pub fn message(&self) -> (r: String)
        ensures
            r@ == self.message_spec(),
    {
        match self {
            ResolutionError::NotFound { tried } => {
                let r = String::from_str("main.py not found. Tried:\n");
                let lines = join_lines(tried);
                r.concat(lines.as_str())
            },
            ResolutionError::ResourceDirUnavailable { cause } => {
                let r = String::from_str("resource_dir error: ");
                r.concat(cause.as_str())
            },
        }
    }
}

/// Joins `lines` with newlines.
pub fn join_lines(lines: &Vec<String>) -> (r: String)
    ensures
        r@ == joined_lines(views(lines@)),
{
    let mut r = String::new();
    let mut i: usize = 0;
    while i < lines.len()
        invariant
            i <= lines.len(),
            r@ == joined_lines(views(lines@.subrange(0, i as int))),
        decreases lines.len() - i,
    {
        let ghost pre = views(lines@.subrange(0, i as int));
        let ghost post = views(lines@.subrange(0, i + 1));
        assert(post.drop_last() =~= pre);
        assert(post.last() == lines@[i as int]@);
        if i > 0 {
            r.append("\n");
            proof {
                reveal_strlit("\n");
            }
            assert("\n"@ =~= seq!['\n']);
            assert(r@ == joined_lines(pre) + seq!['\n']);
        } else {
            assert(pre.len() == 0);
            assert(r@ =~= Seq::<char>::empty());
        }
        r.append(lines[i].as_str());
        assert(r@ =~= joined_lines(post));
        i = i + 1;
    }
    assert(lines@.subrange(0, lines.len() as int) =~= lines@);
    r
}

/// `rel` appended to `base` as a path component.
pub fn join_path(base: &str, rel: &str) -> (r: String)
    ensures
        r@ == joined(base@, rel@),
{
    let n = base.unicode_len();
    let mut r = String::from_str(base);
    if n > 0 && base.get_char(n - 1) != '/' {
        proof {
            reveal_strlit("/");
        }
        r.append("/");
    }
    r.concat(rel)
}

/// Every development candidate: each offset of `dev_offsets` below `base`.
pub fn dev_candidates(base: &str) -> (r: Vec<String>)
    ensures
        r@.len() == dev_offsets().len(),
        forall|i: int| 0 <= i < r@.len() ==> #[trigger] r@[i]@ == joined(base@, dev_offsets()[i]),
{
    let mut r: Vec<String> = Vec::new();
    r.push(join_path(base, "../backend/main.py"));
    r.push(join_path(base, "../../backend/main.py"));
    r.push(join_path(base, "../../../backend/main.py"));
    r
}

/// Index of the first `true` in `flags`, if any.
pub open spec fn first_true(flags: Seq<bool>) -> Option<int>
    decreases flags.len(),
{
    if flags.len() == 0 {
        None
    } else if flags[0] {
        Some(0)
    } else {
        match first_true(flags.drop_first()) {
            Some(k) => Some(k + 1),
            None => None,
        }
    }
}

/// Picks the development script: the first of `tried` whose entry in
/// `exists` is true; otherwise an error that lists every path tried.
pub fn find_dev_script(tried: &Vec<String>, exists: &Vec<bool>) -> (r: Result<
    String,
    ResolutionError,
>)
    requires
        tried@.len() == exists@.len(),
    ensures
        match first_true(exists@) {
            Some(k) => r matches Ok(p) && p@ == tried@[k]@,
            None => r matches Err(ResolutionError::NotFound { tried: t }) && views(t@) == views(
                tried@,
            ),
        },
{
    let mut i: usize = 0;
    while i < exists.len()
        invariant
            i <= exists.len(),
            tried@.len() == exists@.len(),
            forall|j: int| 0 <= j < i ==> !exists@[j],
        decreases exists.len() - i,
    {
        if exists[i] {
            proof {
                lemma_first_true_at(exists@, i as int);
            }
            return Ok(tried[i].clone());
        }
        i = i + 1;
    }
    proof {
        lemma_first_true_none(exists@);
    }
    let mut all: Vec<String> = Vec::new();
    let mut j: usize = 0;
    while j < tried.len()
        invariant
            j <= tried.len(),
            all@.len() == j,
            views(all@) == views(tried@.subrange(0, j as int)),
        decreases tried.len() - j,
    {
        let ghost old_all = all@;
        let c = tried[j].clone();
        assert(c@ == tried@[j as int]@);
        all.push(c);
        j = j + 1;
        assert forall|k: int| 0 <= k < j implies #[trigger] views(all@)[k] == views(
            tried@.subrange(0, j as int),
        )[k] by {
            if k < j - 1 {
                assert(views(all@)[k] == all@[k]@);
                assert(all@[k] == old_all[k]);
                assert(views(old_all)[k] == old_all[k]@);
            }
        }
        assert(views(all@) =~= views(tried@.subrange(0, j as int)));
    }
    assert(tried@.subrange(0, tried.len() as int) =~= tried@);
    Err(ResolutionError::NotFound { tried: all })
}

proof fn lemma_first_true_at(flags: Seq<bool>, i: int)
    requires
        0 <= i < flags.len(),
        flags[i],
        forall|j: int| 0 <= j < i ==> !flags[j],
    ensures
        first_true(flags) == Some(i),
    decreases i,
{
    if i > 0 {
        lemma_first_true_at(flags.drop_first(), i - 1);
    }
}

proof fn lemma_first_true_none(flags: Seq<bool>)
    requires
        forall|j: int| 0 <= j < flags.len() ==> !flags[j],
    ensures
        first_true(flags) is None,
    decreases flags.len(),
{
    if flags.len() > 0 {
        lemma_first_true_none(flags.drop_first());
    }
}

/// The packaged script below the resource directory, or the reason that
/// directory is unknown.
pub fn packaged_script(resource_dir: Result<String, String>) -> (r: Result<
    String,
    ResolutionError,
>)
    ensures
        match resource_dir {
            Ok(d) => r matches Ok(p) && p@ == joined(d@, packaged_offset()),
            Err(e) => r matches Err(ResolutionError::ResourceDirUnavailable { cause }) && cause@
                == e@,
        },
{
    match resource_dir {
        Ok(d) => Ok(join_path(d.as_str(), "backend/main.py")),
        Err(e) => Err(ResolutionError::ResourceDirUnavailable { cause: e }),
    }
}

/// What resolution looks at: in development, every candidate path with
/// whether it exists on disk; when packaged, the bundled-resource directory
/// or why it is unknown.
pub enum ResolutionContext {
    Development { tried: Vec<String>, exists: Vec<bool> },
    Packaged { resource_dir: Result<String, String> },
}

/// Locates the worker's script for the execution mode of `ctx`.
pub fn resolve(ctx: ResolutionContext) -> (r: Result<String, ResolutionError>)
    requires
        ctx matches ResolutionContext::Development { tried, exists } ==> tried@.len()
            == exists@.len(),
    ensures
        match ctx {
            ResolutionContext::Development { tried, exists } => match first_true(exists@) {
                Some(k) => r matches Ok(p) && p@ == tried@[k]@,
                None => r matches Err(ResolutionError::NotFound { tried: t }) && views(t@)
                    == views(tried@),
            },
            ResolutionContext::Packaged { resource_dir } => match resource_dir {
                Ok(d) => r matches Ok(p) && p@ == joined(d@, packaged_offset()),
                Err(e) => r matches Err(ResolutionError::ResourceDirUnavailable { cause })
                    && cause@ == e@,
            },
        },
{
    match ctx {
        ResolutionContext::Development { tried, exists } => find_dev_script(&tried, &exists),
        ResolutionContext::Packaged { resource_dir } => packaged_script(resource_dir),
    }
}

} // verus!
