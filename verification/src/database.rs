//! A capability database, and its builder.

use vstd::prelude::*;

use crate::capability::{Capability, Value, ValueV};
use crate::names;

verus! {

/// Compares two strings by their characters.
pub(crate) fn str_eq(a: &str, b: &str) -> (r: bool)
    ensures
        r == (a@ == b@),
{
    let la = a.unicode_len();
    let lb = b.unicode_len();
    if la != lb {
        return false;
    }
    let mut i: usize = 0;
    while i < la
        invariant
            i <= la,
            la == a@.len(),
            lb == b@.len(),
            la == lb,
            forall|j: int| 0 <= j < i ==> a@[j] == b@[j],
        decreases la - i,
    {
        if a.get_char(i) != b.get_char(i) {
            return false;
        }
        i = i + 1;
    }
    proof {
        assert(a@ =~= b@);
    }
    true
}

/// The views of a sequence of strings.
pub open spec fn string_views(s: Seq<String>) -> Seq<Seq<char>> {
    s.map_values(|x: String| x@)
}

/// The map an association list stands for; a later binding of a key would
/// shadow an earlier one, so the builder never adds one.
pub open spec fn assoc_map(s: Seq<(String, Value)>) -> Map<Seq<char>, ValueV>
    decreases s.len(),
{
    if s.len() == 0 {
        Map::empty()
    } else {
        assoc_map(s.drop_last()).insert(s.last().0@, s.last().1@)
    }
}

/// No two bindings share a key.
pub open spec fn keys_unique(s: Seq<(String, Value)>) -> bool {
    forall|i: int, j: int| 0 <= i < j < s.len() ==> (#[trigger] s[i].0@) != (#[trigger] s[j].0@)
}

/// Inserting a key keeps the bindings of all others and does not touch an
/// existing binding of the key: the first write of a name wins.
pub open spec fn insert_first(m: Map<Seq<char>, ValueV>, k: Seq<char>, v: ValueV) -> Map<
    Seq<char>,
    ValueV,
> {
    if m.contains_key(k) {
        m
    } else {
        m.insert(k, v)
    }
}

/// An association list contains a key exactly when its map does.
proof fn lemma_assoc_contains(s: Seq<(String, Value)>, k: Seq<char>)
    ensures
        assoc_map(s).contains_key(k) <==> exists|i: int| 0 <= i < s.len() && s[i].0@ == k,
    decreases s.len(),
{
    if s.len() > 0 {
        lemma_assoc_contains(s.drop_last(), k);
        if assoc_map(s).contains_key(k) {
            if s.last().0@ == k {
                assert(s[s.len() - 1].0@ == k);
            } else {
                let i = choose|i: int| 0 <= i < s.drop_last().len() && s.drop_last()[i].0@ == k;
                assert(s[i].0@ == k);
            }
        }
        if exists|i: int| 0 <= i < s.len() && s[i].0@ == k {
            let i = choose|i: int| 0 <= i < s.len() && s[i].0@ == k;
            if i < s.len() - 1 {
                assert(s.drop_last()[i].0@ == k);
            }
        }
    }
}

/// In a list with unique keys, the map binds each key to the value listed
/// beside it.
proof fn lemma_assoc_lookup(s: Seq<(String, Value)>, i: int)
    requires
        keys_unique(s),
        0 <= i < s.len(),
    ensures
        assoc_map(s).contains_key(s[i].0@),
        assoc_map(s)[s[i].0@] == s[i].1@,
    decreases s.len(),
{
    if i == s.len() - 1 {
    } else {
        lemma_assoc_lookup(s.drop_last(), i);
        assert(s.drop_last()[i] == s[i]);
        assert(s.last().0@ != s[i].0@);
    }
}

/// The mathematical value of a [`Database`].
#[verifier::ext_equal]
pub ghost struct DbV {
    pub name: Seq<char>,
    pub aliases: Seq<Seq<char>>,
    pub description: Seq<char>,
    pub entries: Map<Seq<char>, ValueV>,
}

/// A capability database: the terminal's names and a mapping from canonical
/// long capability names to their values.
#[derive(Debug)]
pub struct Database {
    name: String,
    aliases: Vec<String>,
    description: String,
    inner: Vec<(String, Value)>,
}

impl View for Database {
    type V = DbV;

    closed spec fn view(&self) -> DbV {
        DbV {
            name: self.name@,
            aliases: string_views(self.aliases@),
            description: self.description@,
            entries: assoc_map(self.inner@),
        }
    }
}

impl Database {
    /// No two stored bindings share a key.
    #[verifier::type_invariant]
    pub closed spec fn wf(&self) -> bool {
        keys_unique(self.inner@)
    }

    /// Creates a builder for constructing a database.
    pub fn new() -> (r: Builder)
        ensures
            r@ == (BuilderV {
                name: None,
                aliases: Seq::empty(),
                description: None,
                entries: Map::empty(),
            }),
    {
        Builder {
            name: None,
            aliases: Vec::new(),
            description: None,
            inner: Vec::new(),
        }
    }

    /// The terminal name.
    pub fn name(&self) -> (r: &str)
        ensures
            r@ == self@.name,
    {
        self.name.as_str()
    }

    /// The terminal's aliases.
    pub fn aliases(&self) -> (r: &[String])
        ensures
            string_views(r@) == self@.aliases,
    {
        self.aliases.as_slice()
    }

    /// The terminal description; empty when the entry carries none.
    pub fn description(&self) -> (r: &str)
        ensures
            r@ == self@.description,
    {
        self.description.as_str()
    }

    /// Looks a binding up under exactly this key.
    fn lookup(&self, key: &str) -> (r: Option<&Value>)
        ensures
            match r {
                Some(v) => self@.entries.contains_key(key@) && v@ == self@.entries[key@],
                None => !self@.entries.contains_key(key@),
            },
    {
        proof {
            use_type_invariant(self);
        }
        let mut i: usize = 0;
        while i < self.inner.len()
            invariant
                i <= self.inner@.len(),
                keys_unique(self.inner@),
                forall|j: int| 0 <= j < i ==> (#[trigger] self.inner@[j].0@) != key@,
            decreases self.inner@.len() - i,
        {
            if str_eq(self.inner[i].0.as_str(), key) {
                proof {
                    lemma_assoc_lookup(self.inner@, i as int);
                }
                return Some(&self.inner[i].1);
            }
            i = i + 1;
        }
        proof {
            lemma_assoc_contains(self.inner@, key@);
        }
        None
    }

    /// Looks a capability up under its resolved name: a short name is
    /// first taken to its canonical long form.  This is the way to reach
    /// extended capabilities, which have no typed identifier.
    pub fn raw(&self, name: &str) -> (r: Option<&Value>)
        ensures
            ({
                let key = names::resolve(name@);
                match r {
                    Some(v) => self@.entries.contains_key(key) && v@ == self@.entries[key],
                    None => !self@.entries.contains_key(key),
                }
            }),
    {
        let resolved: &str = match names::to_long(name) {
            Some(long) => long,
            None => name,
        };
        self.lookup(resolved)
    }

    /// Decodes a compiled entry into a database: exactly what the layout
    /// and resolution specifications of the parser allow, or a parse
    /// error on any malformed buffer.
    pub fn from_buffer(buffer: &[u8]) -> (r: Result<Database, ParseError>)
        ensures
            match crate::parser::compiled::spec_decode(buffer@) {
                Some(dbv) => r matches Ok(db) && db@ == dbv,
                None => r is Err,
            },
    {
        match crate::parser::compiled::parse(buffer) {
            Ok(raw) => raw.into_database(),
            Err(e) => Err(e),
        }
    }

    /// Gets a typed capability: the stored value under the capability's
    /// long name, read as the capability's type.
    pub fn get<C: Capability>(&self) -> (r: Option<C>)
        ensures
            C::parses_to(
                if self@.entries.contains_key(C::spec_name()) {
                    Some(self@.entries[C::spec_name()])
                } else {
                    None
                },
                r,
            ),
    {
        C::parse(self.lookup(C::name()))
    }
}

/// The mathematical value of a [`Builder`].
#[verifier::ext_equal]
pub ghost struct BuilderV {
    pub name: Option<Seq<char>>,
    pub aliases: Seq<Seq<char>>,
    pub description: Option<Seq<char>>,
    pub entries: Map<Seq<char>, ValueV>,
}

/// Builder for a new [`Database`].
#[derive(Debug)]
pub struct Builder {
    name: Option<String>,
    aliases: Vec<String>,
    description: Option<String>,
    inner: Vec<(String, Value)>,
}

impl View for Builder {
    type V = BuilderV;

    closed spec fn view(&self) -> BuilderV {
        BuilderV {
            name: match self.name {
                Some(ref n) => Some(n@),
                None => None,
            },
            aliases: string_views(self.aliases@),
            description: match self.description {
                Some(ref d) => Some(d@),
                None => None,
            },
            entries: assoc_map(self.inner@),
        }
    }
}

impl Builder {
    /// No two stored bindings share a key.
    #[verifier::type_invariant]
    pub closed spec fn wf(&self) -> bool {
        keys_unique(self.inner@)
    }

    /// Sets the terminal name.
    pub fn name(&mut self, name: &str)
        ensures
            final(self)@ == (BuilderV { name: Some(name@), ..old(self)@ }),
    {
        proof {
            use_type_invariant(&*self);
        }
        self.name = Some(name.to_owned());
    }

    /// Sets the terminal aliases.
    pub fn aliases(&mut self, aliases: Vec<String>)
        ensures
            final(self)@ == (BuilderV { aliases: string_views(aliases@), ..old(self)@ }),
    {
        proof {
            use_type_invariant(&*self);
        }
        self.aliases = aliases;
    }

    /// Sets the terminal description.
    pub fn description(&mut self, description: &str)
        ensures
            final(self)@ == (BuilderV { description: Some(description@), ..old(self)@ }),
    {
        proof {
            use_type_invariant(&*self);
        }
        self.description = Some(description.to_owned());
    }

    /// Sets a typed capability under its long name, keeping an existing
    /// binding: the first write of a name wins.
    pub fn set<C: Capability>(&mut self, value: C)
        ensures
            ({
                let nv = match value.spec_into() {
                    Some(vv) => insert_first(old(self)@.entries, C::spec_name(), vv),
                    None => old(self)@.entries,
                };
                final(self)@ == (BuilderV { entries: nv, ..old(self)@ })
            }),
    {
        proof {
            use_type_invariant(&*self);
        }
        if !self.contains(C::name()) {
            match C::into(value) {
                Some(v) => {
                    self.push_entry(C::name(), v);
                },
                None => {},
            }
        }
    }

    /// Sets a raw capability, resolving a short name to its long form,
    /// keeping an existing binding: the first write of a name wins.
    pub fn raw(&mut self, name: &str, value: Value)
        ensures
            final(self)@ == (BuilderV {
                entries: insert_first(old(self)@.entries, names::resolve(name@), value@),
                ..old(self)@
            }),
    {
        proof {
            use_type_invariant(&*self);
        }
        let resolved: &str = match names::to_long(name) {
            Some(long) => long,
            None => name,
        };
        if !self.contains(resolved) {
            self.push_entry(resolved, value);
        }
    }

    /// Sets a capability under exactly this name, keeping an existing
    /// binding: the first write of a name wins.
    pub(crate) fn raw_long(&mut self, name: &str, value: Value)
        ensures
            final(self)@ == (BuilderV {
                entries: insert_first(old(self)@.entries, name@, value@),
                ..old(self)@
            }),
    {
        proof {
            use_type_invariant(&*self);
        }
        if !self.contains(name) {
            self.push_entry(name, value);
        }
    }

    /// Whether a binding under exactly this name exists.
    fn contains(&self, name: &str) -> (r: bool)
        requires
            self.wf(),
        ensures
            r == self@.entries.contains_key(name@),
    {
        let mut i: usize = 0;
        while i < self.inner.len()
            invariant
                i <= self.inner@.len(),
                forall|j: int| 0 <= j < i ==> (#[trigger] self.inner@[j].0@) != name@,
            decreases self.inner@.len() - i,
        {
            if str_eq(self.inner[i].0.as_str(), name) {
                proof {
                    lemma_assoc_contains(self.inner@, name@);
                }
                return true;
            }
            i = i + 1;
        }
        proof {
            lemma_assoc_contains(self.inner@, name@);
        }
        false
    }

    /// Adds a binding under a name that has none.
    fn push_entry(&mut self, name: &str, value: Value)
        requires
            old(self).wf(),
            !old(self)@.entries.contains_key(name@),
        ensures
            final(self)@ == (BuilderV {
                entries: old(self)@.entries.insert(name@, value@),
                ..old(self)@
            }),
    {
        proof {
            lemma_assoc_contains(self.inner@, name@);
        }
        let mut tmp = Builder {
            name: None,
            aliases: Vec::new(),
            description: None,
            inner: Vec::new(),
        };
        core::mem::swap(self, &mut tmp);
        let Builder { name: n0, aliases: a0, description: d0, inner: mut entries0 } = tmp;
        let ghost before = entries0@;
        entries0.push((name.to_owned(), value));
        proof {
            assert(entries0@.drop_last() =~= before);
            assert(keys_unique(entries0@)) by {
                assert(forall|j: int|
                    0 <= j < before.len() ==> (#[trigger] before[j].0@) != name@);
            }
        }
        let mut done = Builder { name: n0, aliases: a0, description: d0, inner: entries0 };
        core::mem::swap(self, &mut done);
        proof {
            assert(self@ =~= (BuilderV {
                entries: old(self)@.entries.insert(name@, value@),
                ..old(self)@
            }));
        }
    }

    /// Builds the database; a name must have been set.
    pub fn build(self) -> (r: Result<Database, ()>)
        ensures
            match r {
                Ok(db) => {
                    &&& self@.name matches Some(n) && db@.name == n
                    &&& db@.aliases == self@.aliases
                    &&& db@.description == (match self@.description {
                        Some(d) => d,
                        None => Seq::<char>::empty(),
                    })
                    &&& db@.entries == self@.entries
                },
                Err(_) => self@.name is None,
            },
    {
        proof {
            use_type_invariant(&self);
        }
        match self.name {
            Some(name) => Ok(
                Database {
                    name,
                    aliases: self.aliases,
                    description: match self.description {
                        Some(d) => d,
                        None => String::new(),
                    },
                    inner: self.inner,
                },
            ),
            None => Err(()),
        }
    }
}

/// The index of the first occurrence of `c` in `s`.
pub open spec fn first_char(s: Seq<char>, c: char) -> Option<int>
    decreases s.len(),
{
    if s.len() == 0 {
        None
    } else if s[0] == c {
        Some(0)
    } else {
        match first_char(s.subrange(1, s.len() as int), c) {
            Some(k) => Some(k + 1),
            None => None,
        }
    }
}

/// What [`first_char`] finds: the position of `c` with none before it, or
/// nothing when `c` does not occur.
proof fn lemma_first_char(s: Seq<char>, c: char)
    ensures
        match first_char(s, c) {
            Some(k) => 0 <= k < s.len() && s[k] == c && forall|j: int| 0 <= j < k ==> s[j] != c,
            None => forall|j: int| 0 <= j < s.len() ==> s[j] != c,
        },
    decreases s.len(),
{
    if s.len() > 0 && s[0] != c {
        let t = s.subrange(1, s.len() as int);
        lemma_first_char(t, c);
        match first_char(t, c) {
            Some(k) => {
                assert(s[k + 1] == t[k]);
                assert forall|j: int| 0 <= j < k + 1 implies s[j] != c by {
                    if j >= 1 {
                        assert(s[j] == t[j - 1]);
                    }
                }
            },
            None => {
                assert forall|j: int| 0 <= j < s.len() implies s[j] != c by {
                    if j >= 1 {
                        assert(s[j] == t[j - 1]);
                    }
                }
            },
        }
    }
}

/// A position that is `c` with none before it is the one [`first_char`]
/// finds.
proof fn lemma_first_char_at(s: Seq<char>, c: char, k: int)
    requires
        0 <= k < s.len(),
        s[k] == c,
        forall|j: int| 0 <= j < k ==> s[j] != c,
    ensures
        first_char(s, c) == Some(k),
    decreases s.len(),
{
    if k > 0 {
        lemma_first_char_at(s.subrange(1, s.len() as int), c, k - 1);
    }
}

/// `s` split on the character `c`: the pieces between occurrences, with
/// the leading and trailing ones included even when empty.
pub open spec fn split_char(s: Seq<char>, c: char) -> Seq<Seq<char>>
    decreases s.len(),
        via split_char_decreases
{
    match first_char(s, c) {
        None => seq![s],
        Some(k) => seq![s.take(k)] + split_char(s.subrange(k + 1, s.len() as int), c),
    }
}

#[via_fn]
proof fn split_char_decreases(s: Seq<char>, c: char) {
    lemma_first_char(s, c);
}

/// Finds the first occurrence of `c` in `s` at or after `from`.
fn find_char(s: &str, from: usize, c: char) -> (r: Option<usize>)
    requires
        from <= s@.len(),
    ensures
        match r {
            Some(k) => first_char(s@.skip(from as int), c) == Some(k as int - from as int) && from
                <= k < s@.len(),
            None => first_char(s@.skip(from as int), c) is None,
        },
{
    let slen = s.unicode_len();
    let ghost t = s@.skip(from as int);
    let mut i: usize = from;
    while i < slen
        invariant
            from <= i <= slen,
            slen == s@.len(),
            t == s@.skip(from as int),
            forall|j: int| from <= j < i ==> s@[j] != c,
        decreases slen - i,
    {
        if s.get_char(i) == c {
            proof {
                assert(t[i as int - from as int] == s@[i as int]);
                assert(forall|j: int| 0 <= j < i - from ==> t[j] == s@[j + from] && t[j] != c);
                lemma_first_char_at(t, c, i as int - from as int);
            }
            return Some(i);
        }
        i = i + 1;
    }
    proof {
        lemma_first_char(t, c);
        assert(forall|j: int| 0 <= j < t.len() ==> t[j] == s@[j + from] && t[j] != c);
    }
    None
}

/// Splits a string on a character, pieces between occurrences.
fn split_str(s: &str, c: char) -> (r: Vec<String>)
    ensures
        string_views(r@) == split_char(s@, c),
{
    let slen = s.unicode_len();
    let mut out: Vec<String> = Vec::new();
    let mut start: usize = 0;
    proof {
        assert(s@.skip(0) =~= s@);
        assert(string_views(out@) =~= Seq::<Seq<char>>::empty());
        assert(split_char(s@, c) =~= string_views(out@) + split_char(s@.skip(0), c));
    }
    loop
        invariant
            start <= slen,
            slen == s@.len(),
            split_char(s@, c) == string_views(out@) + split_char(s@.skip(start as int), c),
        decreases slen - start,
    {
        let ghost rest = s@.skip(start as int);
        match find_char(s, start, c) {
            Some(k) => {
                proof {
                    assert(split_char(rest, c) == seq![rest.take(k - start)] + split_char(
                        rest.subrange(k - start + 1, rest.len() as int),
                        c,
                    ));
                    assert(rest.take(k - start) =~= s@.subrange(start as int, k as int));
                    assert(rest.subrange(k - start + 1, rest.len() as int) =~= s@.skip(
                        k as int + 1,
                    ));
                }
                let piece = String::from_str(s.substring_char(start, k));
                out.push(piece);
                proof {
                    assert(string_views(out@) =~= string_views(out@.drop_last()) + seq![
                        out@.last()@,
                    ]);
                    assert(split_char(s@, c) =~= string_views(out@) + split_char(
                        s@.skip(k as int + 1),
                        c,
                    ));
                }
                start = k + 1;
            },
            None => {
                proof {
                    assert(split_char(rest, c) == seq![rest]);
                    assert(rest =~= s@.subrange(start as int, slen as int));
                }
                let piece = String::from_str(s.substring_char(start, slen));
                out.push(piece);
                proof {
                    assert(string_views(out@) =~= string_views(out@.drop_last()) + seq![
                        out@.last()@,
                    ]);
                    assert(string_views(out@) =~= split_char(s@, c));
                }
                return out;
            },
        }
    }
}

/// The directory list the terminal-name resolver probes, in order: the
/// `TERMINFO` override, else the home `.terminfo` directory; each entry of
/// `TERMINFO_DIRS`; the prefix's terminfo directories; then the well-known
/// fixed directories.
pub open spec fn spec_search_dirs(
    terminfo: Option<Seq<char>>,
    home: Option<Seq<char>>,
    terminfo_dirs: Option<Seq<char>>,
    prefix: Option<Seq<char>>,
) -> Seq<Seq<char>> {
    (match terminfo {
        Some(d) => seq![d],
        None => match home {
            Some(h) => seq![h + "/.terminfo"@],
            None => Seq::empty(),
        },
    }) + (match terminfo_dirs {
        Some(ds) => split_char(ds, ':'),
        None => Seq::empty(),
    }) + (match prefix {
        Some(p) => seq![p + "/etc/terminfo"@, p + "/lib/terminfo"@, p + "/share/terminfo"@],
        None => Seq::empty(),
    }) + seq![
        "/etc/terminfo"@,
        "/lib/terminfo"@,
        "/usr/share/terminfo"@,
        "/usr/local/share/terminfo"@,
        "/usr/local/share/site-terminfo"@,
        "/boot/system/data/terminfo"@,
    ]
}

/// The directory list the terminal-name resolver probes, computed from the
/// relevant environment values; the caller reads the environment and
/// probes the filesystem.
#[verifier::rlimit(100)]
pub fn search_dirs(
    terminfo: Option<&str>,
    home: Option<&str>,
    terminfo_dirs: Option<&str>,
    prefix: Option<&str>,
) -> (r: Vec<String>)
    ensures
        string_views(r@) == spec_search_dirs(
            match terminfo {
                Some(s) => Some(s@),
                None => None,
            },
            match home {
                Some(s) => Some(s@),
                None => None,
            },
            match terminfo_dirs {
                Some(s) => Some(s@),
                None => None,
            },
            match prefix {
                Some(s) => Some(s@),
                None => None,
            },
        ),
{
    let mut out: Vec<String> = Vec::new();
    match terminfo {
        Some(d) => {
            out.push(String::from_str(d));
        },
        None => {
            match home {
                Some(h) => {
                    let mut p = String::from_str(h);
                    p.append("/.terminfo");
                    out.push(p);
                },
                None => {},
            }
        },
    }
    let ghost part1 = string_views(out@);
    proof {
        assert(part1 =~= (match terminfo {
            Some(s) => seq![s@],
            None => match home {
                Some(h) => seq![h@ + "/.terminfo"@],
                None => Seq::<Seq<char>>::empty(),
            },
        }));
    }
    match terminfo_dirs {
        Some(ds) => {
            let mut pieces = split_str(ds, ':');
            let mut i: usize = 0;
            let ghost out0 = out@;
            while i < pieces.len()
                invariant
                    i <= pieces@.len(),
                    string_views(out@) =~= string_views(out0) + string_views(pieces@).take(
                        i as int,
                    ),
                decreases pieces@.len() - i,
            {
                let piece = String::from_str(pieces[i].as_str());
                let ghost piecev = piece@;
                let ghost outpre = out@;
                out.push(piece);
                proof {
                    assert(piecev == pieces@[i as int]@);
                    assert(string_views(out@) =~= string_views(outpre).push(piecev));
                    assert(string_views(pieces@).take(i as int + 1) =~= string_views(
                        pieces@,
                    ).take(i as int).push(pieces@[i as int]@));
                    assert((string_views(out0) + string_views(pieces@).take(i as int)).push(
                        piecev,
                    ) =~= string_views(out0) + string_views(pieces@).take(i as int).push(piecev));
                    assert(string_views(out@) =~= string_views(out0) + string_views(
                        pieces@,
                    ).take(i as int + 1));
                }
                i = i + 1;
            }
            proof {
                assert(string_views(pieces@).take(pieces@.len() as int) =~= string_views(
                    pieces@,
                ));
            }
        },
        None => {},
    }
    let ghost part2 = string_views(out@);
    proof {
        assert(part2 =~= part1 + (match terminfo_dirs {
            Some(ds) => split_char(ds@, ':'),
            None => Seq::<Seq<char>>::empty(),
        }));
    }
    match prefix {
        Some(p) => {
            let mut a = String::from_str(p);
            a.append("/etc/terminfo");
            out.push(a);
            let mut b = String::from_str(p);
            b.append("/lib/terminfo");
            out.push(b);
            let mut cdir = String::from_str(p);
            cdir.append("/share/terminfo");
            out.push(cdir);
        },
        None => {},
    }
    let ghost part3 = string_views(out@);
    proof {
        assert(part3 =~= part2 + (match prefix {
            Some(p) => seq![
                p@ + "/etc/terminfo"@,
                p@ + "/lib/terminfo"@,
                p@ + "/share/terminfo"@,
            ],
            None => Seq::<Seq<char>>::empty(),
        }));
    }
    out.push(String::from_str("/etc/terminfo"));
    out.push(String::from_str("/lib/terminfo"));
    out.push(String::from_str("/usr/share/terminfo"));
    out.push(String::from_str("/usr/local/share/terminfo"));
    out.push(String::from_str("/usr/local/share/site-terminfo"));
    out.push(String::from_str("/boot/system/data/terminfo"));
    proof {
        assert(string_views(out@) =~= part3 + seq![
            "/etc/terminfo"@,
            "/lib/terminfo"@,
            "/usr/share/terminfo"@,
            "/usr/local/share/terminfo"@,
            "/usr/local/share/site-terminfo"@,
            "/boot/system/data/terminfo"@,
        ]);
        assert(string_views(out@) =~= spec_search_dirs(
            match terminfo {
                Some(s) => Some(s@),
                None => None,
            },
            match home {
                Some(s) => Some(s@),
                None => None,
            },
            match terminfo_dirs {
                Some(s) => Some(s@),
                None => None,
            },
            match prefix {
                Some(s) => Some(s@),
                None => None,
            },
        ));
    }
    out
}

/// The lowercase hexadecimal characters of `n`.
pub open spec fn hex_chars(n: int) -> Seq<char>
    decreases n,
        via hex_chars_decreases
{
    if n < 16 {
        seq![hex_digit(n)]
    } else {
        hex_chars(n / 16).push(hex_digit(n % 16))
    }
}

#[via_fn]
proof fn hex_chars_decreases(n: int) {
    if n >= 16 {
        assert(n / 16 < n) by (nonlinear_arith)
            requires
                n >= 16,
        ;
    }
}

/// The lowercase hexadecimal character for `d`.
pub open spec fn hex_digit(d: int) -> char {
    if d == 0 {
        '0'
    } else if d == 1 {
        '1'
    } else if d == 2 {
        '2'
    } else if d == 3 {
        '3'
    } else if d == 4 {
        '4'
    } else if d == 5 {
        '5'
    } else if d == 6 {
        '6'
    } else if d == 7 {
        '7'
    } else if d == 8 {
        '8'
    } else if d == 9 {
        '9'
    } else if d == 10 {
        'a'
    } else if d == 11 {
        'b'
    } else if d == 12 {
        'c'
    } else if d == 13 {
        'd'
    } else if d == 14 {
        'e'
    } else {
        'f'
    }
}

/// The one-character string for the hexadecimal digit `d`.
fn hex_digit_str(d: u32) -> (r: &'static str)
    requires
        d < 16,
    ensures
        r@ == seq![hex_digit(d as int)],
{
    proof {
        reveal_strlit("0");
        reveal_strlit("1");
        reveal_strlit("2");
        reveal_strlit("3");
        reveal_strlit("4");
        reveal_strlit("5");
        reveal_strlit("6");
        reveal_strlit("7");
        reveal_strlit("8");
        reveal_strlit("9");
        reveal_strlit("a");
        reveal_strlit("b");
        reveal_strlit("c");
        reveal_strlit("d");
        reveal_strlit("e");
        reveal_strlit("f");
    }
    let r: &'static str = if d == 0 {
        "0"
    } else if d == 1 {
        "1"
    } else if d == 2 {
        "2"
    } else if d == 3 {
        "3"
    } else if d == 4 {
        "4"
    } else if d == 5 {
        "5"
    } else if d == 6 {
        "6"
    } else if d == 7 {
        "7"
    } else if d == 8 {
        "8"
    } else if d == 9 {
        "9"
    } else if d == 10 {
        "a"
    } else if d == 11 {
        "b"
    } else if d == 12 {
        "c"
    } else if d == 13 {
        "d"
    } else if d == 14 {
        "e"
    } else {
        "f"
    };
    proof {
        assert(r@ =~= seq![hex_digit(d as int)]);
    }
    r
}

/// Appends the lowercase hexadecimal digits of `n`.
fn append_hex(out: &mut String, n: u32)
    ensures
        final(out)@ == old(out)@ + hex_chars(n as int),
    decreases n,
{
    if n < 16 {
        out.append(hex_digit_str(n));
        assert(out@ =~= old(out)@ + hex_chars(n as int));
    } else {
        append_hex(out, n / 16);
        out.append(hex_digit_str(n % 16));
        assert(out@ =~= old(out)@ + hex_chars(n as int));
    }
}

/// The two entry paths probed under a directory for a terminal name: the
/// standard one under the name's first character, and the one under that
/// character's lowercase hexadecimal code.
pub fn entry_paths(dir: &str, name: &str) -> (r: (String, String))
    requires
        name@.len() > 0,
    ensures
        r.0@ == dir@ + "/"@ + seq![name@[0]] + "/"@ + name@,
        r.1@ == dir@ + "/"@ + hex_chars(name@[0] as int) + "/"@ + name@,
{
    let first = name.substring_char(0, 1);
    let mut standard = String::from_str(dir);
    standard.append("/");
    standard.append(first);
    standard.append("/");
    standard.append(name);
    proof {
        assert(first@ =~= seq![name@[0]]);
        assert(standard@ =~= dir@ + "/"@ + seq![name@[0]] + "/"@ + name@);
    }
    let code: u32 = name.get_char(0) as u32;
    let mut hexed = String::from_str(dir);
    hexed.append("/");
    append_hex(&mut hexed, code);
    hexed.append("/");
    hexed.append(name);
    proof {
        assert(hexed@ =~= dir@ + "/"@ + hex_chars(name@[0] as int) + "/"@ + name@);
    }
    (standard, hexed)
}

/// An error in loading a database from the environment.
#[derive(Debug)]
pub enum FromEnvError {
    /// The `TERM` environment variable was not set.
    NoTerm(NoTerm),
    /// The terminal name was read, but loading the database failed.
    FromName(FromNameError),
}

/// The `TERM` environment variable was not set.
#[derive(Debug)]
#[non_exhaustive]
pub struct NoTerm;

impl NoTerm {
    /// Creates the error.
    pub fn new() -> NoTerm {
        NoTerm
    }
}

/// An error in loading a database under a terminal name.
#[derive(Debug)]
pub enum FromNameError {
    /// No entry was found for the name.
    NotFound(NotFound),
    /// An entry was found but could not be loaded.
    Load(LoadError),
}

/// No terminfo entry was found for a terminal name.
#[derive(Debug)]
#[non_exhaustive]
pub struct NotFound {
    name: String,
}

impl NotFound {
    /// The terminal name that was looked for.
    pub closed spec fn spec_name(&self) -> Seq<char> {
        self.name@
    }

    /// Creates the error for a terminal name.
    pub fn new(name: String) -> (r: NotFound)
        ensures
            r.spec_name() == name@,
    {
        NotFound { name }
    }

    /// The terminal name that was looked for.
    pub fn name(&self) -> (r: &str)
        ensures
            r@ == self.spec_name(),
    {
        self.name.as_str()
    }
}

/// An error in loading a database from a file.
#[derive(Debug)]
#[non_exhaustive]
pub struct LoadError {
    /// The path the entry was read from.
    pub path: String,
    /// What went wrong.
    pub kind: LoadErrorKind,
}

impl LoadError {
    /// Creates the error for a path.
    pub fn new(path: String, kind: LoadErrorKind) -> LoadError {
        LoadError { path, kind }
    }
}

/// The cause of a [`LoadError`].
#[derive(Debug)]
pub enum LoadErrorKind {
    /// Reading the file failed.
    Read(std::io::Error),
    /// Parsing the file's bytes failed.
    Parse(ParseError),
}

/// An error in parsing a compiled entry.
#[derive(Eq, PartialEq, Copy, Clone, Debug)]
#[non_exhaustive]
pub struct ParseError;

impl Default for Builder {
    /// A fresh builder: nothing set, no capabilities.
    fn default() -> (r: Self)
        ensures
            r@ == (BuilderV {
                name: None,
                aliases: Seq::empty(),
                description: None,
                entries: Map::empty(),
            }),
    {
        Builder {
            name: None,
            aliases: Vec::new(),
            description: None,
            inner: Vec::new(),
        }
    }
}

} // verus!
