//! Importer configuration: one variant per kind of source, each carrying the
//! same common settings, reached uniformly through a projection.
use vstd::prelude::*;

verus! {

/// Settings shared by every kind of importer.
#[derive(Clone, Debug, PartialEq, Eq, Default)]
pub struct CommonImporter {
    /// A flag to disable the importer, without deleting it.
    pub disabled: bool,
    /// How often the importer should run, in nanoseconds.
    pub period: u128,
    /// A description for users.
    pub description: Option<String>,
    /// Labels applied to the ingested documents, as key/value pairs.
    pub labels: Vec<(String, String)>,
}

/// The settings of one importer: the common part and where it reads from.
#[derive(Clone, Debug, PartialEq, Eq)]
pub struct SourceSettings {
    pub common: CommonImporter,
    /// The location of the source (a URL, a registry, a feed).
    pub source: String,
}

/// The kind of source an importer reads, without its settings.
#[derive(Clone, Copy, Debug, PartialEq, Eq, Structural)]
pub enum ImporterKind {
    Sbom,
    Csaf,
    Osv,
    Cve,
    ClearlyDefined,
    ClearlyDefinedCuration,
    Cwe,
    Quay,
}

/// The configuration of an importer, tagged by the kind of its source.
#[derive(Clone, Debug, PartialEq, Eq)]
pub enum ImporterConfiguration {
    Sbom(SourceSettings),
    Csaf(SourceSettings),
    Osv(SourceSettings),
    Cve(SourceSettings),
    ClearlyDefined(SourceSettings),
    ClearlyDefinedCuration(SourceSettings),
    Cwe(SourceSettings),
    Quay(SourceSettings),
}

impl ImporterConfiguration {
    /// The settings carried by the variant.
    pub open spec fn settings(self) -> SourceSettings {
        match self {
            ImporterConfiguration::Sbom(s) => s,
            ImporterConfiguration::Csaf(s) => s,
            ImporterConfiguration::Osv(s) => s,
            ImporterConfiguration::Cve(s) => s,
            ImporterConfiguration::ClearlyDefined(s) => s,
            ImporterConfiguration::ClearlyDefinedCuration(s) => s,
            ImporterConfiguration::Cwe(s) => s,
            ImporterConfiguration::Quay(s) => s,
        }
    }

    /// The common settings, whatever the variant.
    pub open spec fn common_spec(self) -> CommonImporter {
        self.settings().common
    }

    /// The kind of the variant.
    pub open spec fn kind_spec(self) -> ImporterKind {
        match self {
            ImporterConfiguration::Sbom(_) => ImporterKind::Sbom,
            ImporterConfiguration::Csaf(_) => ImporterKind::Csaf,
            ImporterConfiguration::Osv(_) => ImporterKind::Osv,
            ImporterConfiguration::Cve(_) => ImporterKind::Cve,
            ImporterConfiguration::ClearlyDefined(_) => ImporterKind::ClearlyDefined,
            ImporterConfiguration::ClearlyDefinedCuration(_) => ImporterKind::ClearlyDefinedCuration,
            ImporterConfiguration::Cwe(_) => ImporterKind::Cwe,
            ImporterConfiguration::Quay(_) => ImporterKind::Quay,
        }
    }

    /// The configuration of the given kind with the given settings.
    pub open spec fn of_kind(kind: ImporterKind, s: SourceSettings) -> ImporterConfiguration {
        match kind {
            ImporterKind::Sbom => ImporterConfiguration::Sbom(s),
            ImporterKind::Csaf => ImporterConfiguration::Csaf(s),
            ImporterKind::Osv => ImporterConfiguration::Osv(s),
            ImporterKind::Cve => ImporterConfiguration::Cve(s),
            ImporterKind::ClearlyDefined => ImporterConfiguration::ClearlyDefined(s),
            ImporterKind::ClearlyDefinedCuration => ImporterConfiguration::ClearlyDefinedCuration(s),
            ImporterKind::Cwe => ImporterConfiguration::Cwe(s),
            ImporterKind::Quay => ImporterConfiguration::Quay(s),
        }
    }

    /// Whether the configuration allows the importer to run.
    pub open spec fn is_enabled_spec(self) -> bool {
        !self.common_spec().disabled
    }

    /// The settings shared by every kind of importer.
    pub fn common(&self) -> (r: &CommonImporter)
        ensures
            *r == self.common_spec(),
    {
        match self {
            ImporterConfiguration::Sbom(s) => &s.common,
            ImporterConfiguration::Csaf(s) => &s.common,
            ImporterConfiguration::Osv(s) => &s.common,
            ImporterConfiguration::Cve(s) => &s.common,
            ImporterConfiguration::ClearlyDefined(s) => &s.common,
            ImporterConfiguration::ClearlyDefinedCuration(s) => &s.common,
            ImporterConfiguration::Cwe(s) => &s.common,
            ImporterConfiguration::Quay(s) => &s.common,
        }
    }

    /// Mutable access to the common settings; the variant and the source stay.
    pub fn common_mut(&mut self) -> (r: &mut CommonImporter)
        ensures
            *r == old(self).common_spec(),
            *final(self) == ImporterConfiguration::of_kind(
                old(self).kind_spec(),
                SourceSettings { common: *final(r), source: old(self).settings().source },
            ),
    {
        match self {
            ImporterConfiguration::Sbom(s) => &mut s.common,
            ImporterConfiguration::Csaf(s) => &mut s.common,
            ImporterConfiguration::Osv(s) => &mut s.common,
            ImporterConfiguration::Cve(s) => &mut s.common,
            ImporterConfiguration::ClearlyDefined(s) => &mut s.common,
            ImporterConfiguration::ClearlyDefinedCuration(s) => &mut s.common,
            ImporterConfiguration::Cwe(s) => &mut s.common,
            ImporterConfiguration::Quay(s) => &mut s.common,
        }
    }

    /// The kind of source this configuration is for.
    pub fn kind(&self) -> (r: ImporterKind)
        ensures
            r == self.kind_spec(),
    {
        match self {
            ImporterConfiguration::Sbom(_) => ImporterKind::Sbom,
            ImporterConfiguration::Csaf(_) => ImporterKind::Csaf,
            ImporterConfiguration::Osv(_) => ImporterKind::Osv,
            ImporterConfiguration::Cve(_) => ImporterKind::Cve,
            ImporterConfiguration::ClearlyDefined(_) => ImporterKind::ClearlyDefined,
            ImporterConfiguration::ClearlyDefinedCuration(_) => ImporterKind::ClearlyDefinedCuration,
            ImporterConfiguration::Cwe(_) => ImporterKind::Cwe,
            ImporterConfiguration::Quay(_) => ImporterKind::Quay,
        }
    }

    /// Splits the configuration into its kind and its settings.
    pub fn into_parts(self) -> (r: (ImporterKind, SourceSettings))
        ensures
            r.0 == self.kind_spec(),
            r.1 == self.settings(),
    {
        match self {
            ImporterConfiguration::Sbom(s) => (ImporterKind::Sbom, s),
            ImporterConfiguration::Csaf(s) => (ImporterKind::Csaf, s),
            ImporterConfiguration::Osv(s) => (ImporterKind::Osv, s),
            ImporterConfiguration::Cve(s) => (ImporterKind::Cve, s),
            ImporterConfiguration::ClearlyDefined(s) => (ImporterKind::ClearlyDefined, s),
            ImporterConfiguration::ClearlyDefinedCuration(s) => (ImporterKind::ClearlyDefinedCuration, s),
            ImporterConfiguration::Cwe(s) => (ImporterKind::Cwe, s),
            ImporterConfiguration::Quay(s) => (ImporterKind::Quay, s),
        }
    }

    /// Builds the configuration of the given kind from its settings.
    pub fn from_parts(kind: ImporterKind, settings: SourceSettings) -> (r: ImporterConfiguration)
        ensures
            r == ImporterConfiguration::of_kind(kind, settings),
    {
        match kind {
            ImporterKind::Sbom => ImporterConfiguration::Sbom(settings),
            ImporterKind::Csaf => ImporterConfiguration::Csaf(settings),
            ImporterKind::Osv => ImporterConfiguration::Osv(settings),
            ImporterKind::Cve => ImporterConfiguration::Cve(settings),
            ImporterKind::ClearlyDefined => ImporterConfiguration::ClearlyDefined(settings),
            ImporterKind::ClearlyDefinedCuration => ImporterConfiguration::ClearlyDefinedCuration(settings),
            ImporterKind::Cwe => ImporterConfiguration::Cwe(settings),
            ImporterKind::Quay => ImporterConfiguration::Quay(settings),
        }
    }
}

} // verus!
