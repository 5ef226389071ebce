use vstd::prelude::*;
use crate::paths::last_index_of;
use crate::paths::lemma_last_index_bounds;
use crate::paths::last_index;

verus! {

/// White space as Unicode's `White_Space` property lists it.
pub open spec fn is_white_space(c: char) -> bool {
    let u = c as u32;
    (0x09 <= u && u <= 0x0D) || u == 0x20 || u == 0x85 || u == 0xA0 || u == 0x1680 || (0x2000
        <= u && u <= 0x200A) || u == 0x2028 || u == 0x2029 || u == 0x202F || u == 0x205F || u
        == 0x3000
}

/// `s` without its leading white space.
pub open spec fn trim_start_of(s: Seq<char>) -> Seq<char>
    decreases s.len(),
{
    if s.len() > 0 && is_white_space(s[0]) {
        trim_start_of(s.drop_first())
    } else {
        s
    }
}

/// `s` without its trailing white space.
pub open spec fn trim_end_of(s: Seq<char>) -> Seq<char>
    decreases s.len(),
{
    if s.len() > 0 && is_white_space(s.last()) {
        trim_end_of(s.drop_last())
    } else {
        s
    }
}

/// `s` without its leading and trailing white space.
pub open spec fn trimmed(s: Seq<char>) -> Seq<char> {
    trim_end_of(trim_start_of(s))
}

/// Relies on `str::trim`: the text without the leading and trailing
/// characters that have Unicode's `White_Space` property.
#[verifier::external_body]
fn trim_text(s: &str) -> (r: String)
    ensures
        r@ == trimmed(s@),
{
    s.trim().to_string()
}

/// `s` without its last character when that character is `c`.
pub open spec fn strip_last(s: Seq<char>, c: char) -> Seq<char> {
    if s.len() > 0 && s.last() == c {
        s.drop_last()
    } else {
        s
    }
}

/// A header line as it is looked up: one line ending (`\n` or `\r\n`) and then
/// a single trailing comma removed. A `\r` that no `\n` follows stays.
pub open spec fn normalized(line: Seq<char>) -> Seq<char> {
    if line.len() > 0 && line.last() == '\n' {
        strip_last(strip_last(line.drop_last(), '\r'), ',')
    } else {
        strip_last(line, ',')
    }
}

/// Whether `s` ends with `suffix`.
pub open spec fn ends_with(s: Seq<char>, suffix: Seq<char>) -> bool {
    suffix.len() <= s.len() && s.subrange(s.len() - suffix.len(), s.len() as int) == suffix
}

/// A file name without its extension.
pub open spec fn stem_of(name: Seq<char>) -> Seq<char> {
    let d = last_index_of(name, '.');
    if d > 0 {
        name.subrange(0, d)
    } else {
        name
    }
}

/// The table that a template file is for: its name is `<table>_template`,
/// with or without an extension.
pub open spec fn table_of_template(name: Seq<char>, suffix: Seq<char>) -> Option<Seq<char>> {
    let st = stem_of(name);
    if ends_with(st, suffix) {
        Some(st.subrange(0, st.len() - suffix.len()))
    } else {
        None
    }
}

pub open spec fn template_suffix() -> Seq<char> {
    "_template"@
}

fn strip_last_char(s: &str, c: char) -> (r: &str)
    ensures
        r@ == strip_last(s@, c),
{
    let n = s.unicode_len();
    if n > 0 && s.get_char(n - 1) == c {
        s.substring_char(0, n - 1)
    } else {
        s
    }
}

/// The header line as it is looked up in a `TemplateMap`.
pub fn normalize_header(line: &str) -> (r: String)
    ensures
        r@ == normalized(line@),
{
    let n = line.unicode_len();
    if n > 0 && line.get_char(n - 1) == '\n' {
        let b = strip_last_char(line.substring_char(0, n - 1), '\r');
        strip_last_char(b, ',').to_string()
    } else {
        strip_last_char(line, ',').to_string()
    }
}

fn has_suffix(s: &str, suffix: &str) -> (r: bool)
    ensures
        r == ends_with(s@, suffix@),
{
    let n = s.unicode_len();
    let m = suffix.unicode_len();
    if m > n {
        return false;
    }
    let off = n - m;
    let mut i: usize = 0;
    while i < m
        invariant
            i <= m,
            m == suffix@.len(),
            n == s@.len(),
            off == n - m,
            forall|j: int| 0 <= j < i ==> s@[off + j] == suffix@[j],
        decreases m - i,
    {
        if s.get_char(off + i) != suffix.get_char(i) {
            assert(s@.subrange(off as int, n as int)[i as int] != suffix@[i as int]);
            return false;
        }
        i = i + 1;
    }
    assert(s@.subrange(off as int, n as int) =~= suffix@);
    true
}

/// The table name that a template file's name declares, if it follows the
/// `<table>_template` pattern.
pub fn table_name_of_template(file_name: &str) -> (r: Option<String>)
    ensures
        match r {
            Some(t) => table_of_template(file_name@, template_suffix()) == Some(t@),
            None => table_of_template(file_name@, template_suffix()) is None,
        },
{
    proof {
        lemma_last_index_bounds(file_name@, '.');
    }
    let d: usize = match last_index(file_name, '.') {
        Some(k) => k,
        None => 0,
    };
    let stem = if d > 0 {
        file_name.substring_char(0, d)
    } else {
        file_name
    };
    assert(stem@ == stem_of(file_name@));
    let suffix = "_template";
    if has_suffix(stem, suffix) {
        let k = stem.unicode_len() - suffix.unicode_len();
        Some(stem.substring_char(0, k).to_string())
    } else {
        None
    }
}

/// The registered templates: a map from a header line to the table that a
/// file with that header belongs to. Keys are unique; registering a header
/// again replaces its table.
pub struct TemplateMap {
    entries: Vec<(String, String)>,
    model: Ghost<Map<Seq<char>, Seq<char>>>,
}

impl View for TemplateMap {
    type V = Map<Seq<char>, Seq<char>>;

    closed spec fn view(&self) -> Map<Seq<char>, Seq<char>> {
        self.model@
    }
}

impl TemplateMap {
    /// The entries hold exactly the map's pairs, each header once.
    pub closed spec fn wf(&self) -> bool {
        &&& forall|i: int, j: int|
            0 <= i < j < self.entries@.len() ==> #[trigger] self.entries@[i].0@
                != #[trigger] self.entries@[j].0@
        &&& forall|i: int|
            0 <= i < self.entries@.len() ==> {
                &&& self.model@.contains_key(#[trigger] self.entries@[i].0@)
                &&& self.model@[self.entries@[i].0@] == self.entries@[i].1@
            }
        &&& forall|h: Seq<char>|
            #[trigger] self.model@.contains_key(h) ==> exists|i: int|
                0 <= i < self.entries@.len() && #[trigger] self.entries@[i].0@ == h
    }

    /// A map with no templates.
    pub fn new() -> (r: TemplateMap)
        ensures
            r.wf(),
            r@ == Map::<Seq<char>, Seq<char>>::empty(),
    {
        TemplateMap { entries: Vec::new(), model: Ghost(Map::empty()) }
    }

    /// How many header lines are registered.
    pub fn len(&self) -> (r: usize)
        requires
            self.wf(),
        ensures
            r == self@.len(),
    {
        proof {
            self.lemma_len();
        }
        self.entries.len()
    }

    proof fn lemma_len(&self)
        requires
            self.wf(),
        ensures
            self@.len() == self.entries@.len(),
            self@.dom().finite(),
        decreases self.entries@.len(),
    {
        let keys = Seq::new(self.entries@.len(), |i: int| self.entries@[i].0@);
        assert(keys.no_duplicates()) by {
            assert forall|i: int, j: int| 0 <= i < keys.len() && 0 <= j < keys.len() && i != j
                implies keys[i] != keys[j] by {
                if i < j {
                    assert(self.entries@[i].0@ != self.entries@[j].0@);
                } else {
                    assert(self.entries@[j].0@ != self.entries@[i].0@);
                }
            }
        }
        assert(keys.to_set() =~= self.model@.dom()) by {
            assert forall|h: Seq<char>| keys.to_set().contains(h) <==> self.model@.dom().contains(h) by {
                if self.model@.contains_key(h) {
                    let i = choose|i: int| 0 <= i < self.entries@.len() && #[trigger] self.entries@[i].0@ == h;
                    assert(keys[i] == h);
                }
                if keys.to_set().contains(h) {
                    let i = choose|i: int| 0 <= i < keys.len() && keys[i] == h;
                    assert(self.model@.contains_key(self.entries@[i].0@));
                }
            }
        }
        keys.unique_seq_to_set();
    }

    fn position(&self, header: &String) -> (r: Option<usize>)
        requires
            self.wf(),
        ensures
            match r {
                Some(i) => i < self.entries@.len() && self.entries@[i as int].0@ == header@,
                None => !self@.contains_key(header@),
            },
    {
        let mut i: usize = 0;
        while i < self.entries.len()
            invariant
                i <= self.entries@.len(),
                forall|j: int| 0 <= j < i ==> self.entries@[j].0@ != header@,
            decreases self.entries@.len() - i,
        {
            if self.entries[i].0 == *header {
                return Some(i);
            }
            i = i + 1;
        }
        None
    }

    /// Registers `header` for `table`; a header registered before now maps to
    /// `table`.
    pub fn register(&mut self, header: String, table: String)
        requires
            old(self).wf(),
        ensures
            final(self).wf(),
            final(self)@ == old(self)@.insert(header@, table@),
    {
        let ghost m = self.model@.insert(header@, table@);
        match self.position(&header) {
            Some(i) => {
                self.entries.set(i, (header, table));
                self.model = Ghost(m);
                assert forall|h: Seq<char>| #[trigger] m.contains_key(h) implies exists|k: int|
                    0 <= k < self.entries@.len() && #[trigger] self.entries@[k].0@ == h by {
                    if h != self.entries@[i as int].0@ {
                        let k = choose|k: int| 0 <= k < old(self).entries@.len() && #[trigger] old(self).entries@[k].0@ == h;
                        assert(self.entries@[k].0@ == h);
                    }
                }
            },
            None => {
                let ghost n = self.entries@.len();
                self.entries.push((header, table));
                self.model = Ghost(m);
                assert forall|h: Seq<char>| #[trigger] m.contains_key(h) implies exists|k: int|
                    0 <= k < self.entries@.len() && #[trigger] self.entries@[k].0@ == h by {
                    if h != self.entries@[n as int].0@ {
                        let k = choose|k: int| 0 <= k < old(self).entries@.len() && #[trigger] old(self).entries@[k].0@ == h;
                        assert(self.entries@[k].0@ == h);
                    }
                }
            },
        }
    }

    /// The table registered for exactly `header`, if any.
    pub fn lookup(&self, header: &str) -> (r: Option<String>)
        requires
            self.wf(),
        ensures
            match r {
                Some(t) => self@.contains_key(header@) && self@[header@] == t@,
                None => !self@.contains_key(header@),
            },
    {
        let key = header.to_string();
        match self.position(&key) {
            Some(i) => Some(self.entries[i].1.clone()),
            None => None,
        }
    }

    /// Registers the template file `file_name` whose content is `content`: its
    /// trimmed content is the header line, its name declares the table. A
    /// file whose name declares no table is left out, and `false` returned.
    pub fn register_template(&mut self, file_name: &str, content: &str) -> (r: bool)
        requires
            old(self).wf(),
        ensures
            final(self).wf(),
            r == table_of_template(file_name@, template_suffix()) is Some,
            match table_of_template(file_name@, template_suffix()) {
                Some(t) => final(self)@ == old(self)@.insert(trimmed(content@), t),
                None => final(self)@ == old(self)@,
            },
    {
        match table_name_of_template(file_name) {
            Some(table) => {
                let header = trim_text(content);
                self.register(header, table);
                true
            },
            None => false,
        }
    }
}

} // verus!
