//! Which sources a configuration names, and in which order.

use vstd::prelude::*;

verus! {

/// One table under `[sources]` in the configuration, with the string values
/// that the sources read.
#[derive(Debug)]
pub struct ConfigSection {
    pub name: String,
    pub module: Option<String>,
    pub interface: Option<String>,
    pub sink: Option<String>,
}

pub open spec fn opt_view(o: Option<String>) -> Option<Seq<char>> {
    match o {
        Some(s) => Some(s@),
        None => None,
    }
}

impl View for ConfigSection {
    type V = (Seq<char>, Option<Seq<char>>, Option<Seq<char>>, Option<Seq<char>>);

    open spec fn view(&self) -> Self::V {
        (self.name@, opt_view(self.module), opt_view(self.interface), opt_view(self.sink))
    }
}

/// The kinds of source that a configuration can name.
#[derive(Debug, Copy, Clone, PartialEq, Eq, Structural)]
pub enum SourceKind {
    DateTime,
    FreeDiskSpace,
    MediaPlayer,
    NetworkInterface,
    SystemLoad,
    Volume,
}

/// A source to build: its kind, and the interface or sink it watches.
#[derive(Debug)]
pub enum SourceSpec {
    DateTime,
    FreeDiskSpace,
    MediaPlayer,
    NetworkInterface(String),
    SystemLoad,
    Volume(String),
}

impl View for SourceSpec {
    type V = (SourceKind, Seq<char>);

    open spec fn view(&self) -> (SourceKind, Seq<char>) {
        match self {
            SourceSpec::DateTime => (SourceKind::DateTime, Seq::empty()),
            SourceSpec::FreeDiskSpace => (SourceKind::FreeDiskSpace, Seq::empty()),
            SourceSpec::MediaPlayer => (SourceKind::MediaPlayer, Seq::empty()),
            SourceSpec::NetworkInterface(i) => (SourceKind::NetworkInterface, i@),
            SourceSpec::SystemLoad => (SourceKind::SystemLoad, Seq::empty()),
            SourceSpec::Volume(s) => (SourceKind::Volume, s@),
        }
    }
}

#[derive(Debug, Copy, Clone, PartialEq, Eq, Structural)]
pub enum ConfigErrorKind {
    /// The table has no `module`.
    MissingModule,
    /// `module` names no known source.
    UnknownModule,
    /// A `network_interface` table has no `interface`.
    MissingInterface,
    /// A `volume` table has no `sink`.
    MissingSink,
}

/// A configuration table that names no source that can be built.
#[derive(Debug)]
pub struct ConfigError {
    pub section: String,
    pub kind: ConfigErrorKind,
}

impl View for ConfigError {
    type V = (Seq<char>, ConfigErrorKind);

    open spec fn view(&self) -> (Seq<char>, ConfigErrorKind) {
        (self.section@, self.kind)
    }
}

pub type SectionView = (Seq<char>, Option<Seq<char>>, Option<Seq<char>>, Option<Seq<char>>);

/// The source that one table names.
pub open spec fn source_of(s: SectionView) -> Result<(SourceKind, Seq<char>), (Seq<char>, ConfigErrorKind)> {
    match s.1 {
        None => Err((s.0, ConfigErrorKind::MissingModule)),
        Some(m) => if m == "date_time"@ {
            Ok((SourceKind::DateTime, Seq::empty()))
        } else if m == "free_disk_space"@ {
            Ok((SourceKind::FreeDiskSpace, Seq::empty()))
        } else if m == "media_player"@ {
            Ok((SourceKind::MediaPlayer, Seq::empty()))
        } else if m == "network_interface"@ {
            match s.2 {
                Some(i) => Ok((SourceKind::NetworkInterface, i)),
                None => Err((s.0, ConfigErrorKind::MissingInterface)),
            }
        } else if m == "system_load"@ {
            Ok((SourceKind::SystemLoad, Seq::empty()))
        } else if m == "volume"@ {
            match s.3 {
                Some(k) => Ok((SourceKind::Volume, k)),
                None => Err((s.0, ConfigErrorKind::MissingSink)),
            }
        } else {
            Err((s.0, ConfigErrorKind::UnknownModule))
        },
    }
}

/// The tables in display order: the reverse of the file's.
pub open spec fn display_order(s: Seq<SectionView>) -> Seq<SectionView> {
    Seq::new(s.len(), |k: int| s[s.len() - 1 - k])
}

/// The sources of tables in turn, or the error of the first table that
/// names none.
pub open spec fn sources_of(r: Seq<SectionView>) -> Result<Seq<(SourceKind, Seq<char>)>, (Seq<char>, ConfigErrorKind)>
    decreases r.len(),
{
    if r.len() == 0 {
        Ok(Seq::empty())
    } else {
        match sources_of(r.drop_last()) {
            Err(e) => Err(e),
            Ok(pre) => match source_of(r.last()) {
                Err(e) => Err(e),
                Ok(x) => Ok(pre.push(x)),
            },
        }
    }
}

/// The sources that a configuration names, in display order.
pub open spec fn registry_of(s: Seq<SectionView>) -> Result<Seq<(SourceKind, Seq<char>)>, (Seq<char>, ConfigErrorKind)> {
    sources_of(display_order(s))
}

proof fn lemma_error_stays(r: Seq<SectionView>, k: int)
    requires
        0 <= k <= r.len(),
        sources_of(r.subrange(0, k)) is Err,
    ensures
        sources_of(r) == sources_of(r.subrange(0, k)),
    decreases r.len() - k,
{
    if k < r.len() {
        assert(r.subrange(0, k + 1).drop_last() =~= r.subrange(0, k));
        lemma_error_stays(r, k + 1);
    } else {
        assert(r.subrange(0, k) =~= r);
    }
}

fn copy_string(s: &String) -> (r: String)
    ensures
        r@ == s@,
{
    s.clone()
}

/// The source that one table names.
pub fn source_for(section: &ConfigSection) -> (r: Result<SourceSpec, ConfigError>)
    ensures
        match r {
            Ok(spec) => source_of(section@) == Ok::<(SourceKind, Seq<char>), (Seq<char>, ConfigErrorKind)>(spec@),
            Err(e) => source_of(section@) == Err::<(SourceKind, Seq<char>), (Seq<char>, ConfigErrorKind)>(e@),
        },
{
    let name = copy_string(&section.name);
    match &section.module {
        None => Err(ConfigError { section: name, kind: ConfigErrorKind::MissingModule }),
        Some(m) => {
            if *m == String::from_str("date_time") {
                Ok(SourceSpec::DateTime)
            } else if *m == String::from_str("free_disk_space") {
                Ok(SourceSpec::FreeDiskSpace)
            } else if *m == String::from_str("media_player") {
                Ok(SourceSpec::MediaPlayer)
            } else if *m == String::from_str("network_interface") {
                match &section.interface {
                    Some(i) => Ok(SourceSpec::NetworkInterface(copy_string(i))),
                    None => Err(ConfigError { section: name, kind: ConfigErrorKind::MissingInterface }),
                }
            } else if *m == String::from_str("system_load") {
                Ok(SourceSpec::SystemLoad)
            } else if *m == String::from_str("volume") {
                match &section.sink {
                    Some(k) => Ok(SourceSpec::Volume(copy_string(k))),
                    None => Err(ConfigError { section: name, kind: ConfigErrorKind::MissingSink }),
                }
            } else {
                Err(ConfigError { section: name, kind: ConfigErrorKind::UnknownModule })
            }
        },
    }
}

/// The sources that the tables under `[sources]` name, in display order
/// (the reverse of the file's); the error of the first table, in that
/// order, that names none.
pub fn build_registry(sections: &Vec<ConfigSection>) -> (r: Result<Vec<SourceSpec>, ConfigError>)
    ensures
        ({
            let expected = registry_of(sections@.map_values(|s: ConfigSection| s@));
            match r {
                Ok(v) => expected == Ok::<Seq<(SourceKind, Seq<char>)>, (Seq<char>, ConfigErrorKind)>(
                    v@.map_values(|x: SourceSpec| x@)),
                Err(e) => expected == Err::<Seq<(SourceKind, Seq<char>)>, (Seq<char>, ConfigErrorKind)>(e@),
            }
        }),
{
    let ghost sv = sections@.map_values(|s: ConfigSection| s@);
    let ghost order = display_order(sv);
    let n = sections.len();
    let mut out: Vec<SourceSpec> = Vec::new();
    let mut k: usize = 0;
    assert(order.subrange(0, 0) =~= Seq::<SectionView>::empty());
    assert(out@.map_values(|x: SourceSpec| x@) =~= Seq::<(SourceKind, Seq<char>)>::empty());
    while k < n
        invariant
            k <= n,
            n == sections.len(),
            sv == sections@.map_values(|s: ConfigSection| s@),
            order == display_order(sv),
            sources_of(order.subrange(0, k as int)) == Ok::<Seq<(SourceKind, Seq<char>)>, (Seq<char>, ConfigErrorKind)>(
                out@.map_values(|x: SourceSpec| x@)),
        decreases n - k,
    {
        let ghost pre = order.subrange(0, k as int);
        let ghost next = order.subrange(0, k + 1);
        assert(next.drop_last() =~= pre);
        assert(next.last() == sv[n - 1 - k]);
        match source_for(&sections[n - 1 - k]) {
            Ok(spec) => {
                let ghost before = out@.map_values(|x: SourceSpec| x@);
                out.push(spec);
                assert(out@.map_values(|x: SourceSpec| x@) =~= before.push(spec@));
            },
            Err(e) => {
                proof {
                    lemma_error_stays(order, k + 1);
                }
                return Err(e);
            },
        }
        k = k + 1;
    }
    assert(order.subrange(0, n as int) =~= order);
    Ok(out)
}

} // verus!
