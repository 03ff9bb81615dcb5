use vstd::prelude::*;

verus! {

#[verifier::external_type_specification]
#[verifier::external_body]
pub struct ExIni(ini::Ini);

/// What an `Ini` holds: for each named section and key, the first value stored.
pub uninterp spec fn ini_entries(store: ini::Ini) -> Map<(Seq<char>, Seq<char>), Seq<char>>;

/// Every (section, key, value) that an `Ini` holds, including the general section
/// (`None`), later sections of a repeated name and later values of a repeated key.
pub uninterp spec fn ini_triples(store: ini::Ini) -> Set<(Option<Seq<char>>, Seq<char>, Seq<char>)>;

/// Every section an `Ini` holds, empty or not; `None` is the general section.
pub uninterp spec fn ini_sections(store: ini::Ini) -> Set<Option<Seq<char>>>;

/// The entries that rust-ini's parser reads from `text` (as `ini_entries` gives
/// them), or `None` where it reports an error.
pub uninterp spec fn ini_parsed(text: Seq<char>) -> Option<Map<(Seq<char>, Seq<char>), Seq<char>>>;

pub open spec fn no_sections() -> Set<Option<Seq<char>>> {
    Set::empty()
}

pub open spec fn no_triples() -> Set<(Option<Seq<char>>, Seq<char>, Seq<char>)> {
    Set::empty()
}

/// A character that rust-ini writes unescaped and reads back as itself: no
/// control character and no backslash.
pub open spec fn plain_char(c: char) -> bool {
    c == ' ' || (0x21 <= c as u32 <= 0x7e && c != '\\') || c as u32 >= 0x80
}

/// A printable ASCII character other than a space: the parser's trimming of
/// whitespace leaves it in place.
pub open spec fn graphic_char(c: char) -> bool {
    0x21 <= c as u32 <= 0x7e
}

/// A text that survives a write and a parse: plain characters, not empty, and
/// no whitespace at either end.
pub open spec fn plain_text(s: Seq<char>) -> bool {
    &&& s.len() > 0
    &&& graphic_char(s[0]) && graphic_char(s[s.len() - 1])
    &&& forall|i: int| 0 <= i < s.len() ==> plain_char(#[trigger] s[i])
}

/// A key that is written as `key=` and read back as itself: besides being plain,
/// it holds no `=` or `:` and does not start a comment or a section header.
pub open spec fn plain_key(k: Seq<char>) -> bool {
    &&& plain_text(k)
    &&& forall|i: int| 0 <= i < k.len() ==> #[trigger] k[i] != '=' && k[i] != ':'
    &&& k[0] != ';' && k[0] != '#' && k[0] != '['
}

/// A value that is read back as itself: empty, or plain and not starting with
/// a quote (the parser strips quotes).
pub open spec fn plain_value(v: Seq<char>) -> bool {
    v.len() == 0 || (plain_text(v) && v[0] != '"' && v[0] != '\'')
}

/// The one section is the only section, and every entry has a plain key and value.
pub open spec fn writes_back(
    sections: Set<Option<Seq<char>>>,
    triples: Set<(Option<Seq<char>>, Seq<char>, Seq<char>)>,
) -> bool {
    &&& forall|n: Option<Seq<char>>| #[trigger] sections.contains(n) ==> n == Some(section())
    &&& forall|t: (Option<Seq<char>>, Seq<char>, Seq<char>)|
        #[trigger] triples.contains(t) ==> t.0 == Some(section()) && plain_key(t.1) && plain_value(
            t.2,
        )
}

pub open spec fn no_entries() -> Map<(Seq<char>, Seq<char>), Seq<char>> {
    Map::empty()
}

/// Relies on `Ini::new`: a store with no named section.
#[verifier::external_body]
fn new_ini() -> (r: ini::Ini)
    ensures
        ini_entries(r) == no_entries(),
        ini_triples(r) == no_triples(),
        ini_sections(r) == no_sections(),
{
    ini::Ini::new()
}

/// Relies on `Ini::with_section(..).set`: the section is made where missing, and
/// the key's values in its first section of that name are replaced by `value`;
/// nothing else is added.
#[verifier::external_body]
fn ini_set(store: &mut ini::Ini, section: &str, key: &str, value: &str)
    ensures
        ini_entries(*final(store)) == ini_entries(*old(store)).insert((section@, key@), value@),
        ini_triples(*final(store)).subset_of(
            ini_triples(*old(store)).insert((Some(section@), key@, value@)),
        ),
        ini_sections(*final(store)).subset_of(ini_sections(*old(store)).insert(Some(section@))),
{
    store.with_section(Some(section)).set(key, value);
}

/// Relies on `Ini::get_from`: the first value of `key` in `section`, if any.
#[verifier::external_body]
fn ini_get(store: &ini::Ini, section: &str, key: &str) -> (r: Option<String>)
    ensures
        match r {
            Some(v) => ini_entries(*store).contains_key((section@, key@)) && ini_entries(
                *store,
            )[(section@, key@)] == v@,
            None => !ini_entries(*store).contains_key((section@, key@)),
        },
{
    store.get_from(Some(section), key).map(String::from)
}

/// Relies on `Ini::load_from_str`: the store that `text` describes, or `None`
/// where the parser reports an error.
#[verifier::external_body]
fn ini_parse(text: &str) -> (r: Option<ini::Ini>)
    ensures
        match r {
            Some(store) => ini_parsed(text@) == Some(ini_entries(store)),
            None => ini_parsed(text@) is None,
        },
{
    ini::Ini::load_from_str(text).ok()
}

/// Relies on `Ini::write_to` into memory: the text of the store, as written to a
/// file. The store holds strings only, so the bytes are UTF-8. Each section is
/// written as a `[name]` line followed by `key=value` lines, in order, escaping
/// only backslashes and control characters; where the store holds only the one
/// section and every entry is plain, the parser reads the same entries back.
#[verifier::external_body]
fn ini_text(store: &ini::Ini) -> (r: String)
    ensures
        writes_back(ini_sections(*store), ini_triples(*store)) ==> ini_parsed(r@) == Some(
            ini_entries(*store),
        ),
{
    let mut bytes: Vec<u8> = Vec::new();
    store.write_to(&mut bytes).expect("writing to memory does not fail");
    String::from_utf8(bytes).expect("the store holds strings only")
}

/// The section every setting lives in.
pub open spec fn section() -> Seq<char> {
    "default"@
}

pub open spec fn records_file_path_key() -> Seq<char> {
    "records_file_path"@
}

pub open spec fn default_records_file_path() -> Seq<char> {
    "work_entries.csv"@
}

/// The settings of a first run.
pub open spec fn default_settings() -> Map<Seq<char>, Seq<char>> {
    map![records_file_path_key() => default_records_file_path()]
}

/// The settings of the one section, by key.
pub open spec fn settings_in(entries: Map<(Seq<char>, Seq<char>), Seq<char>>) -> Map<
    Seq<char>,
    Seq<char>,
> {
    Map::new(
        |k: Seq<char>| entries.contains_key((section(), k)),
        |k: Seq<char>| entries[(section(), k)],
    )
}

pub open spec fn settings_of(store: ini::Ini) -> Map<Seq<char>, Seq<char>> {
    settings_in(ini_entries(store))
}

#[derive(Clone, Copy, Debug, PartialEq, Eq)]
pub enum ConfigError {
    /// The text is not INI.
    Malformed,
    /// No setting has the key asked for.
    MissingKey,
}

/// Settings held in memory; `write` gives the text that replaces the stored file.
pub struct ConfigurationRepository {
    store: ini::Ini,
}

impl View for ConfigurationRepository {
    type V = Map<Seq<char>, Seq<char>>;

    closed spec fn view(&self) -> Map<Seq<char>, Seq<char>> {
        settings_of(self.store)
    }
}

impl ConfigurationRepository {
    /// Every entry of the store is plain, so that `write` gives a text that reads
    /// back to the same settings.
    pub closed spec fn writes_back(&self) -> bool {
        writes_back(ini_sections(self.store), ini_triples(self.store))
    }

    /// Settings read from the text of a settings file.
    pub fn new(text: &str) -> (r: Result<ConfigurationRepository, ConfigError>)
        ensures
            match r {
                Ok(c) => ini_parsed(text@) is Some && c@ == settings_in(ini_parsed(text@)->Some_0),
                Err(e) => ini_parsed(text@) is None && e == ConfigError::Malformed,
            },
    {
        match ini_parse(text) {
            Some(store) => Ok(ConfigurationRepository { store }),
            None => Err(ConfigError::Malformed),
        }
    }

    /// The settings of a first run: the records file is `work_entries.csv`.
    pub fn with_defaults() -> (r: ConfigurationRepository)
        ensures
            r@ == default_settings(),
            r.writes_back(),
    {
        let mut store = new_ini();
        ini_set(&mut store, "default", "records_file_path", "work_entries.csv");
        let r = ConfigurationRepository { store };
        assert(r@ =~= default_settings());
        proof {
            reveal_strlit("default");
            reveal_strlit("records_file_path");
            reveal_strlit("work_entries.csv");
            assert(plain_key("records_file_path"@));
            assert(plain_value("work_entries.csv"@));
            assert(ini_triples(store).subset_of(
                no_triples().insert((Some("default"@), "records_file_path"@, "work_entries.csv"@)),
            ));
        }
        r
    }

    /// Sets `name` to `value` in memory only.
    pub fn set(&mut self, name: &str, value: String)
        ensures
            final(self)@ == old(self)@.insert(name@, value@),
            old(self).writes_back() && plain_key(name@) && plain_value(value@) ==> final(self).writes_back(),
    {
        ini_set(&mut self.store, "default", name, value.as_str());
        assert(final(self)@ =~= old(self)@.insert(name@, value@));
    }

    /// The value of `name`; an error where no setting has that key.
    pub fn get(&self, name: &str) -> (r: Result<String, ConfigError>)
        ensures
            match r {
                Ok(v) => self@.contains_key(name@) && v@ == self@[name@],
                Err(e) => !self@.contains_key(name@) && e == ConfigError::MissingKey,
            },
    {
        match ini_get(&self.store, "default", name) {
            Some(v) => Ok(v),
            None => Err(ConfigError::MissingKey),
        }
    }

    /// The text that replaces the whole settings file. Where every entry is
    /// plain, parsing it gives back exactly these settings.
    pub fn write(&self) -> (r: String)
        ensures
            self.writes_back() ==> ini_parsed(r@) is Some && settings_in(ini_parsed(r@)->Some_0)
                == self@,
    {
        ini_text(&self.store)
    }
}

} // verus!
