//! The module registry: configuration, the trait every simulation implements,
//! and the pure decisions behind listing and selecting modules — which the
//! surrounding program uses to dispatch the actual runs.

use vstd::prelude::*;
use vstd::string::StrSliceExecFns;
use crate::store::strings_view;

verus! {

/// Run-wide configuration every simulation receives.
pub struct Config {
    /// When set, no files are read or decrypted; actions only record what
    /// they would do.
    pub dry_run: bool,
    /// An identifier stamped into every produced artifact, for correlation.
    pub test_id: String,
}

impl Config {
    /// A configuration with the given flag and identifier.
    pub fn new(dry_run: bool, test_id: String) -> (r: Config)
        ensures
            r.dry_run == dry_run,
            r.test_id@ == test_id@,
    {
        Config { dry_run, test_id }
    }
}

/// What every action module implements: a stable, machine-friendly name,
/// namespaced by operating system (`windows::ransom_note`).
pub trait Simulation: Sized {
    /// The module's name as specifications see it.
    spec fn spec_name(&self) -> Seq<char>;

    /// The module's full name.
    fn name(&self) -> (r: &'static str)
        ensures
            r@ == self.spec_name(),
    ;
}

/// Registers the modules of a run and holds its configuration; the program
/// around the library walks the registered names to dispatch each module.
pub struct Runner {
    modules: Vec<String>,
    config: Config,
}

impl Runner {
    /// The registered module names, in registration order.
    pub closed spec fn modules_view(&self) -> Seq<Seq<char>> {
        strings_view(self.modules@)
    }

    /// Whether this run is a dry run.
    pub closed spec fn spec_dry_run(&self) -> bool {
        self.config.dry_run
    }

    /// The run's identifier.
    pub closed spec fn spec_test_id(&self) -> Seq<char> {
        self.config.test_id@
    }

    /// A runner with no modules registered yet.
    pub fn new(config: Config) -> (r: Runner)
        ensures
            r.modules_view() == Seq::<Seq<char>>::empty(),
            r.spec_dry_run() == config.dry_run,
            r.spec_test_id() == config.test_id@,
    {
        let r = Runner { modules: Vec::new(), config };
        proof {
            assert(r.modules_view() =~= Seq::<Seq<char>>::empty());
        }
        r
    }

    /// Registers one module under its name.
    pub fn register<S: Simulation>(&mut self, sim: &S)
        ensures
            final(self).modules_view() == old(self).modules_view().push(sim.spec_name()),
            final(self).spec_dry_run() == old(self).spec_dry_run(),
            final(self).spec_test_id() == old(self).spec_test_id(),
    {
        let name = sim.name().to_owned();
        self.modules.push(name);
        proof {
            assert(self.modules_view() =~= old(self).modules_view().push(sim.spec_name()));
        }
    }

    /// The registered module names.
    pub fn module_names(&self) -> (r: &Vec<String>)
        ensures
            strings_view(r@) == self.modules_view(),
    {
        &self.modules
    }

    /// The run's configuration.
    pub fn config(&self) -> (r: &Config)
        ensures
            r.dry_run == self.spec_dry_run(),
            r.test_id@ == self.spec_test_id(),
    {
        &self.config
    }
}

/// Mapping strings to their views keeps the length.
proof fn lemma_sv_len(ss: Seq<String>)
    ensures
        strings_view(ss).len() == ss.len(),
{
}

/// Mapping strings to their views commutes with appending one string.
pub proof fn lemma_strings_view_push(ss: Seq<String>, x: String)
    ensures
        strings_view(ss.push(x)) =~= strings_view(ss).push(x@),
{
    lemma_sv_len(ss.push(x));
    lemma_sv_len(ss);
    assert forall|m: int| 0 <= m < ss.len() + 1 implies strings_view(ss.push(x))[m]
        == strings_view(ss).push(x@)[m] by {
        if m < ss.len() {
            assert(ss.push(x)[m] == ss[m]);
        } else {
            assert(ss.push(x)[m] == x);
        }
    }
}

/// Whether two characters are equal up to ASCII case.
pub open spec fn spec_char_eq_ic(x: char, y: char) -> bool {
    ||| x == y
    ||| (65 <= x as int <= 90 && x as int + 32 == y as int)
    ||| (65 <= y as int <= 90 && y as int + 32 == x as int)
}

/// Whether two texts are equal up to ASCII case.
pub open spec fn spec_eq_ic(a: Seq<char>, b: Seq<char>) -> bool {
    a.len() == b.len() && (forall|i: int| 0 <= i < a.len() ==> spec_char_eq_ic(a[i], b[i]))
}

fn char_eq_ic(x: char, y: char) -> (r: bool)
    ensures
        r == spec_char_eq_ic(x, y),
{
    if x == y {
        true
    } else {
        let xu = x as u32;
        let yu = y as u32;
        (65 <= xu && xu <= 90 && xu + 32 == yu) || (65 <= yu && yu <= 90 && yu + 32 == xu)
    }
}

/// Compares two texts ignoring ASCII case.
pub fn str_eq_ignore_case(a: &str, b: &str) -> (r: bool)
    ensures
        r == spec_eq_ic(a@, b@),
{
    let na = a.unicode_len();
    let nb = b.unicode_len();
    if na != nb {
        return false;
    }
    let mut i: usize = 0;
    while i < na
        invariant
            i <= na,
            na == a@.len(),
            na == b@.len(),
            forall|j: int| 0 <= j < i ==> spec_char_eq_ic(a@[j], b@[j]),
        decreases na - i,
    {
        if !char_eq_ic(a.get_char(i), b.get_char(i)) {
            return false;
        }
        i = i + 1;
    }
    true
}

/// The position of the last `::` whose pair ends before position `i`.
pub open spec fn spec_last_dsep(s: Seq<char>, i: int) -> Option<int>
    decreases i,
{
    if i < 2 {
        None
    } else if s[i - 2] == ':' && s[i - 1] == ':' {
        Some(i - 2)
    } else {
        spec_last_dsep(s, i - 1)
    }
}

/// A module's short name: the characters after the last `::`, or the whole
/// name when it has none.
pub open spec fn spec_short_name(s: Seq<char>) -> Seq<char> {
    match spec_last_dsep(s, s.len() as int) {
        Some(j) => s.subrange(j + 2, s.len() as int),
        None => s,
    }
}

/// Cuts a module name down to its short name.
pub fn short_name(s: &str) -> (r: String)
    ensures
        r@ == spec_short_name(s@),
{
    let n = s.unicode_len();
    let mut i: usize = n;
    while i >= 2
        invariant
            i <= n,
            n == s@.len(),
            spec_last_dsep(s@, n as int) == spec_last_dsep(s@, i as int),
        decreases i,
    {
        if s.get_char(i - 2) == ':' && s.get_char(i - 1) == ':' {
            return s.substring_char(i, n).to_owned();
        }
        i = i - 1;
    }
    s.to_owned()
}

/// Whether a module name answers a request: the full or the short name
/// matches, ignoring ASCII case.
pub open spec fn spec_request_matches(m: Seq<char>, r: Seq<char>) -> bool {
    spec_eq_ic(m, r) || spec_eq_ic(spec_short_name(m), r)
}

fn request_matches(m: &str, r: &str) -> (b: bool)
    ensures
        b == spec_request_matches(m@, r@),
{
    if str_eq_ignore_case(m, r) {
        return true;
    }
    let sn = short_name(m);
    str_eq_ignore_case(sn.as_str(), r)
}

/// The available modules, among the first `i`, that answer one request, in
/// listing order.
pub open spec fn spec_matches_for(avail: Seq<Seq<char>>, r: Seq<char>, i: int) -> Seq<Seq<char>>
    decreases i,
{
    if i <= 0 {
        Seq::empty()
    } else {
        spec_matches_for(avail, r, i - 1) + if spec_request_matches(avail[i - 1], r) {
            seq![avail[i - 1]]
        } else {
            Seq::<Seq<char>>::empty()
        }
    }
}

/// Whether some request among the first `j` asks for everything.
pub open spec fn spec_has_all(reqs: Seq<Seq<char>>) -> bool {
    exists|i: int| 0 <= i < reqs.len() && spec_eq_ic(reqs[i], "all"@)
}

/// Selection over the first `j` requests: every match of every request, in
/// request order, and the requests that matched nothing.
pub open spec fn spec_selection(avail: Seq<Seq<char>>, reqs: Seq<Seq<char>>, j: int) -> (
    Seq<Seq<char>>,
    Seq<Seq<char>>,
)
    decreases j,
{
    if j <= 0 {
        (Seq::empty(), Seq::empty())
    } else {
        let prior = spec_selection(avail, reqs, j - 1);
        let ms = spec_matches_for(avail, reqs[j - 1], avail.len() as int);
        (
            prior.0 + ms,
            if ms.len() == 0 {
                prior.1.push(reqs[j - 1])
            } else {
                prior.1
            },
        )
    }
}

/// Whether some request asks for everything.
fn has_all_request(requested: &Vec<String>) -> (r: bool)
    ensures
        r == spec_has_all(strings_view(requested@)),
{
    let mut i: usize = 0;
    while i < requested.len()
        invariant
            i <= requested@.len(),
            forall|j: int| 0 <= j < i ==> !spec_eq_ic(strings_view(requested@)[j], "all"@),
        decreases requested@.len() - i,
    {
        if str_eq_ignore_case(requested[i].as_str(), "all") {
            proof {
                assert(spec_eq_ic(strings_view(requested@)[i as int], "all"@));
            }
            return true;
        }
        i = i + 1;
    }
    false
}

/// Resolves requested module names against the available ones. A request of
/// `all` (in any case) selects everything; otherwise each request contributes
/// every module whose full or short name matches it, and a request matching
/// nothing is reported back rather than failing the run.
pub fn select_modules(available: &Vec<String>, requested: &Vec<String>) -> (r: (
    Vec<String>,
    Vec<String>,
))
    ensures
        spec_has_all(strings_view(requested@)) ==> {
            &&& strings_view(r.0@) == strings_view(available@)
            &&& r.1@.len() == 0
        },
        !spec_has_all(strings_view(requested@)) ==> {
            &&& strings_view(r.0@) == spec_selection(
                strings_view(available@),
                strings_view(requested@),
                requested@.len() as int,
            ).0
            &&& strings_view(r.1@) == spec_selection(
                strings_view(available@),
                strings_view(requested@),
                requested@.len() as int,
            ).1
        },
{
    let ghost av = strings_view(available@);
    let ghost rv = strings_view(requested@);
    if has_all_request(requested) {
        let mut all: Vec<String> = Vec::new();
        let mut k: usize = 0;
        proof {
            assert(strings_view(all@) =~= av.subrange(0, 0));
        }
        while k < available.len()
            invariant
                k <= available@.len(),
                av == strings_view(available@),
                strings_view(all@) == av.subrange(0, k as int),
            decreases available@.len() - k,
        {
            let ghost pre_all = all@;
            let item = available[k].clone();
            all.push(item);
            proof {
                lemma_strings_view_push(pre_all, available@[k as int]);
                assert(strings_view(all@) =~= av.subrange(0, k + 1));
            }
            k = k + 1;
        }
        proof {
            assert(av.subrange(0, av.len() as int) =~= av);
        }
        return (all, Vec::new());
    }
    let mut selected: Vec<String> = Vec::new();
    let mut missing: Vec<String> = Vec::new();
    let mut j: usize = 0;
    proof {
        assert(strings_view(selected@) =~= spec_selection(av, rv, 0).0);
        assert(strings_view(missing@) =~= spec_selection(av, rv, 0).1);
    }
    while j < requested.len()
        invariant
            j <= requested@.len(),
            av == strings_view(available@),
            rv == strings_view(requested@),
            strings_view(selected@) == spec_selection(av, rv, j as int).0,
            strings_view(missing@) == spec_selection(av, rv, j as int).1,
        decreases requested@.len() - j,
    {
        let ghost pre = strings_view(selected@);
        let mut found = false;
        let mut k: usize = 0;
        while k < available.len()
            invariant
                k <= available@.len(),
                av == strings_view(available@),
                rv == strings_view(requested@),
                j < requested@.len(),
                strings_view(selected@) == pre + spec_matches_for(av, rv[j as int], k as int),
                found == (spec_matches_for(av, rv[j as int], k as int).len() != 0),
            decreases available@.len() - k,
        {
            if request_matches(available[k].as_str(), requested[j].as_str()) {
                let ghost pre_sel = selected@;
                selected.push(available[k].clone());
                found = true;
                proof {
                    lemma_strings_view_push(pre_sel, available@[k as int]);
                    assert(strings_view(selected@) =~= pre + spec_matches_for(
                        av,
                        rv[j as int],
                        k + 1,
                    ));
                }
            } else {
                proof {
                    assert(pre + spec_matches_for(av, rv[j as int], k as int) =~= pre
                        + spec_matches_for(av, rv[j as int], k + 1));
                }
            }
            k = k + 1;
        }
        if !found {
            let ghost pre_miss = missing@;
            missing.push(requested[j].clone());
            proof {
                lemma_strings_view_push(pre_miss, requested@[j as int]);
                assert(strings_view(missing@) =~= spec_selection(av, rv, j + 1).1);
            }
        }
        j = j + 1;
    }
    (selected, missing)
}


/// The position of the first `::` at or after position `i`.
pub open spec fn spec_first_dsep(s: Seq<char>, i: int) -> Option<int>
    decreases s.len() - i,
{
    if i < 0 || i + 2 > s.len() {
        None
    } else if s[i] == ':' && s[i + 1] == ':' {
        Some(i)
    } else {
        spec_first_dsep(s, i + 1)
    }
}

/// A module's namespace: the characters before the first `::`, or the whole
/// name when it has none.
pub open spec fn spec_os_prefix(s: Seq<char>) -> Seq<char> {
    match spec_first_dsep(s, 0) {
        Some(j) => s.subrange(0, j),
        None => s,
    }
}

/// Cuts a module name down to its namespace.
pub fn os_prefix(s: &str) -> (r: String)
    ensures
        r@ == spec_os_prefix(s@),
{
    let n = s.unicode_len();
    if n < 2 {
        return s.to_owned();
    }
    let mut i: usize = 0;
    while i <= n - 2
        invariant
            n >= 2,
            i <= n - 1,
            n == s@.len(),
            spec_first_dsep(s@, 0) == spec_first_dsep(s@, i as int),
        decreases n - i,
    {
        if s.get_char(i) == ':' && s.get_char(i + 1) == ':' {
            return s.substring_char(0, i).to_owned();
        }
        i = i + 1;
    }
    s.to_owned()
}

/// One namespace and its modules, in registration order.
pub struct OsGroup {
    pub os: String,
    pub modules: Vec<String>,
}

/// Spec-level image of an [`OsGroup`].
#[verifier::ext_equal]
pub struct OsGroupView {
    pub os: Seq<char>,
    pub modules: Seq<Seq<char>>,
}

impl View for OsGroup {
    type V = OsGroupView;

    open spec fn view(&self) -> OsGroupView {
        OsGroupView { os: self.os@, modules: strings_view(self.modules@) }
    }
}

/// The views of a sequence of groups.
pub open spec fn groups_view(gs: Seq<OsGroup>) -> Seq<OsGroupView> {
    gs.map_values(|g: OsGroup| g@)
}

/// The modules among the first `i` whose namespace is `os`, in order.
pub open spec fn spec_modules_with_os(ms: Seq<Seq<char>>, os: Seq<char>, i: int) -> Seq<Seq<char>>
    decreases i,
{
    if i <= 0 {
        Seq::empty()
    } else {
        spec_modules_with_os(ms, os, i - 1) + if spec_os_prefix(ms[i - 1]) == os {
            seq![ms[i - 1]]
        } else {
            Seq::<Seq<char>>::empty()
        }
    }
}

/// The distinct namespaces among the first `i` modules, in first-appearance
/// order.
pub open spec fn spec_os_keys(ms: Seq<Seq<char>>, i: int) -> Seq<Seq<char>>
    decreases i,
{
    if i <= 0 {
        Seq::empty()
    } else {
        let prior = spec_os_keys(ms, i - 1);
        if prior.contains(spec_os_prefix(ms[i - 1])) {
            prior
        } else {
            prior.push(spec_os_prefix(ms[i - 1]))
        }
    }
}

/// The namespaces collected so far never repeat.
pub proof fn lemma_os_keys_distinct(ms: Seq<Seq<char>>, i: int)
    ensures
        forall|a: int, b: int|
            0 <= a < b < spec_os_keys(ms, i).len() ==> spec_os_keys(ms, i)[a] != spec_os_keys(
                ms,
                i,
            )[b],
    decreases i,
{
    if i > 0 {
        lemma_os_keys_distinct(ms, i - 1);
        let prior = spec_os_keys(ms, i - 1);
        let p = spec_os_prefix(ms[i - 1]);
        if !prior.contains(p) {
            assert(forall|a: int| 0 <= a < prior.len() ==> prior[a] != p);
        }
    }
}

/// Every module among the first `i` has its namespace among the keys.
pub proof fn lemma_os_keys_complete(ms: Seq<Seq<char>>, i: int, j: int)
    requires
        0 <= j < i,
    ensures
        spec_os_keys(ms, i).contains(spec_os_prefix(ms[j])),
    decreases i,
{
    if j == i - 1 {
        let prior = spec_os_keys(ms, i - 1);
        let p = spec_os_prefix(ms[j]);
        if !prior.contains(p) {
            assert(spec_os_keys(ms, i)[prior.len() as int] == p);
        } else {
            lemma_os_keys_grow(ms, i);
        }
    } else {
        lemma_os_keys_complete(ms, i - 1, j);
        lemma_os_keys_grow(ms, i);
    }
}

/// A key once present stays present.
pub proof fn lemma_os_keys_grow(ms: Seq<Seq<char>>, i: int)
    requires
        i >= 1,
    ensures
        forall|k: Seq<char>|
            spec_os_keys(ms, i - 1).contains(k) ==> #[trigger] spec_os_keys(ms, i).contains(k),
{
    let prior = spec_os_keys(ms, i - 1);
    assert forall|k: Seq<char>| prior.contains(k) implies #[trigger] spec_os_keys(
        ms,
        i,
    ).contains(k) by {
        let w = choose|w: int| 0 <= w < prior.len() && prior[w] == k;
        assert(spec_os_keys(ms, i)[w] == k);
    }
}

/// A namespace absent from the keys has no modules either.
pub proof fn lemma_no_key_no_modules(ms: Seq<Seq<char>>, os: Seq<char>, i: int)
    requires
        0 <= i,
        !spec_os_keys(ms, i).contains(os),
    ensures
        spec_modules_with_os(ms, os, i) =~= Seq::<Seq<char>>::empty(),
    decreases i,
{
    if i > 0 {
        lemma_os_keys_grow(ms, i);
        if spec_os_keys(ms, i - 1).contains(os) {
            assert(spec_os_keys(ms, i).contains(os));
        }
        lemma_no_key_no_modules(ms, os, i - 1);
        lemma_os_keys_complete(ms, i, i - 1);
        assert(spec_os_prefix(ms[i - 1]) != os);
    }
}

/// Groups the registered module names by namespace: one group per distinct
/// namespace, in first-appearance order, holding exactly that namespace's
/// modules in registration order.
pub fn collect_modules_by_os(runner: &Runner) -> (r: Vec<OsGroup>)
    ensures
        ({
            let ms = runner.modules_view();
            let keys = spec_os_keys(ms, ms.len() as int);
            &&& r@.len() == keys.len()
            &&& forall|g: int|
                0 <= g < keys.len() ==> (#[trigger] r@[g])@.os == keys[g] && r@[g]@.modules
                    == spec_modules_with_os(ms, keys[g], ms.len() as int)
        }),
{
    let modules = runner.module_names();
    let ghost ms = runner.modules_view();
    let mut groups: Vec<OsGroup> = Vec::new();
    let mut i: usize = 0;
    while i < modules.len()
        invariant
            i <= modules@.len(),
            ms == strings_view(modules@),
            groups@.len() == spec_os_keys(ms, i as int).len(),
            forall|g: int|
                0 <= g < groups@.len() ==> (#[trigger] groups@[g])@.os == spec_os_keys(
                    ms,
                    i as int,
                )[g] && groups@[g]@.modules == spec_modules_with_os(
                    ms,
                    spec_os_keys(ms, i as int)[g],
                    i as int,
                ),
        decreases modules@.len() - i,
    {
        let m = &modules[i];
        let os = os_prefix(m.as_str());
        let ghost keys = spec_os_keys(ms, i as int);
        proof {
            lemma_os_keys_distinct(ms, i as int);
            assert(ms[i as int] == modules@[i as int]@);
        }
        let mut g: usize = 0;
        let mut found = false;
        while g < groups.len() && !found
            invariant
                g <= groups@.len(),
                os@ == spec_os_prefix(ms[i as int]),
                !found ==> forall|h: int| 0 <= h < g ==> (#[trigger] groups@[h])@.os != os@,
                found ==> g < groups@.len() && groups@[g as int]@.os == os@,
            decreases groups@.len() - g + if found {
                0int
            } else {
                1int
            },
        {
            if groups[g].os.eq(&os) {
                found = true;
            } else {
                g = g + 1;
            }
        }
        let ghost old_groups = groups@;
        if found {
            proof {
                assert(keys[g as int] == os@);
                assert(keys.contains(os@));
                assert(spec_os_keys(ms, i + 1) == keys);
            }
            let ghost old_mods = groups@[g as int].modules@;
            let item = m.clone();
            let slot = &mut groups[g];
            slot.modules.push(item);
            proof {
                lemma_strings_view_push(old_mods, modules@[i as int]);
                assert(groups@ == old_groups.update(g as int, groups@[g as int]));
                assert(groups@[g as int]@.modules =~= spec_modules_with_os(ms, os@, i + 1));
                assert forall|h: int| 0 <= h < groups@.len() implies (#[trigger] groups@[h])@.os
                    == spec_os_keys(ms, i + 1)[h] && groups@[h]@.modules == spec_modules_with_os(
                    ms,
                    spec_os_keys(ms, i + 1)[h],
                    i + 1,
                ) by {
                    if h != g as int {
                        assert(groups@[h] == old_groups[h]);
                        assert(keys[h] != os@);
                        assert(spec_modules_with_os(ms, keys[h], i + 1) == spec_modules_with_os(
                            ms,
                            keys[h],
                            i as int,
                        ));
                    }
                }
            }
        } else {
            proof {
                assert(g as int == groups@.len());
                assert(!keys.contains(os@)) by {
                    if keys.contains(os@) {
                        let w = choose|w: int| 0 <= w < keys.len() && keys[w] == os@;
                        assert(groups@[w]@.os == os@);
                    }
                }
                assert(spec_os_keys(ms, i + 1) == keys.push(os@));
                lemma_no_key_no_modules(ms, os@, i as int);
            }
            let mut mods: Vec<String> = Vec::new();
            mods.push(m.clone());
            let fresh = OsGroup { os, modules: mods };
            groups.push(fresh);
            proof {
                assert(groups@[g as int]@.modules =~= spec_modules_with_os(ms, spec_os_keys(
                    ms,
                    i + 1,
                )[g as int], i + 1));
                assert forall|h: int| 0 <= h < groups@.len() implies (#[trigger] groups@[h])@.os
                    == spec_os_keys(ms, i + 1)[h] && groups@[h]@.modules == spec_modules_with_os(
                    ms,
                    spec_os_keys(ms, i + 1)[h],
                    i + 1,
                ) by {
                    if h < g as int {
                        assert(groups@[h] == old_groups[h]);
                        assert(keys[h] != os@) by {
                            assert(old_groups[h]@.os == keys[h]);
                        }
                        assert(spec_modules_with_os(ms, keys[h], i + 1) == spec_modules_with_os(
                            ms,
                            keys[h],
                            i as int,
                        ));
                    }
                }
            }
        }
        i = i + 1;
    }
    groups
}

} // verus!
