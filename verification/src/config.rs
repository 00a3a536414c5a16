use vstd::prelude::*;

use crate::text::blank;
use crate::text::is_blank;
use crate::text::str_eq;
use vstd::string::StrSliceExecFns;

verus! {

/// The one way a configuration can be rejected: a blank package name, or an
/// output format outside the recognized set.
#[derive(Clone, Copy, Debug, PartialEq, Eq, Structural)]
pub enum ConfigError {
    EmptyPackageName,
    InvalidFormat,
}

/// The recognized output modes: the human-readable rendering, the full
/// serialized snapshot, or a single named field.
#[derive(Clone, Debug, PartialEq)]
pub enum OutputFormat {
    Standard,
    Json,
    Field(String),
}

/// A format string selects a single field when it begins with the six
/// characters `field:`; whatever follows is the field name.
pub open spec fn field_format(f: Seq<char>) -> bool {
    f.len() >= 6 && f.subrange(0, 6) == "field:"@
}

/// The format strings the program accepts.
pub open spec fn valid_format(f: Seq<char>) -> bool {
    f == "json"@ || f == "default"@ || field_format(f)
}

fn has_field_prefix(s: &str) -> (r: bool)
    ensures
        r == field_format(s@),
{
    proof {
        reveal_strlit("field:");
    }
    let n = s.unicode_len();
    if n < 6 {
        return false;
    }
    if s.get_char(0) != 'f' {
        assert(s@.subrange(0, 6)[0] == s@[0]);
        return false;
    }
    if s.get_char(1) != 'i' {
        assert(s@.subrange(0, 6)[1] == s@[1]);
        return false;
    }
    if s.get_char(2) != 'e' {
        assert(s@.subrange(0, 6)[2] == s@[2]);
        return false;
    }
    if s.get_char(3) != 'l' {
        assert(s@.subrange(0, 6)[3] == s@[3]);
        return false;
    }
    if s.get_char(4) != 'd' {
        assert(s@.subrange(0, 6)[4] == s@[4]);
        return false;
    }
    if s.get_char(5) != ':' {
        assert(s@.subrange(0, 6)[5] == s@[5]);
        return false;
    }
    proof {
        assert(s@.subrange(0, 6) =~= "field:"@);
    }
    true
}

/// Reads a format string into the output mode it names, or `None` when the
/// string is outside the recognized set.
pub fn parse_output_format(s: &str) -> (r: Option<OutputFormat>)
    ensures
        r is Some <==> valid_format(s@),
        s@ == "json"@ ==> r == Some(OutputFormat::Json),
        s@ == "default"@ ==> r == Some(OutputFormat::Standard),
        field_format(s@) ==> (r matches Some(OutputFormat::Field(name)) && name@ == s@.subrange(
            6,
            s@.len() as int,
        )),
    {
    proof {
        reveal_strlit("json");
        reveal_strlit("default");
        reveal_strlit("field:");
    }
    if str_eq(s, "json") {
        assert(!field_format(s@));
        return Some(OutputFormat::Json);
    }
    if str_eq(s, "default") {
        assert(s@.subrange(0, 6)[0] == s@[0]);
        assert(!field_format(s@));
        return Some(OutputFormat::Standard);
    }
    if has_field_prefix(s) {
        let n = s.unicode_len();
        let name_slice = s.substring_char(6, n);
        let name: String = name_slice.to_owned();
        return Some(OutputFormat::Field(name));
    }
    None
}

/// One run's settings: the package under examination, the output selection,
/// optional file paths, and the numeric thresholds of the liveness heuristic.
/// The surrounding program fills this from command-line arguments.
#[derive(Clone, Debug, PartialEq)]
pub struct Config {
    pub package: String,
    pub format: Option<String>,
    pub config_file: Option<String>,
    pub history: Option<String>,
    pub check: Option<String>,
    pub max_days: i64,
    pub min_weekly_downloads: u64,
    pub min_monthly_downloads: u64,
    pub min_versions: usize,
    pub min_maintainers: usize,
    pub verbose: bool,
}

/// Settings that may come from a configuration file; every entry is optional
/// and, when present, overrides the corresponding command-line value.
#[derive(Clone, Debug, PartialEq)]
pub struct FileConfig {
    pub format: Option<String>,
    pub max_days: Option<i64>,
    pub min_weekly_downloads: Option<u64>,
    pub min_monthly_downloads: Option<u64>,
    pub min_versions: Option<usize>,
    pub min_maintainers: Option<usize>,
}

/// A configuration is acceptable when the package name holds at least one
/// non-whitespace character and any chosen format string is recognized.
pub open spec fn config_acceptable(config: Config) -> bool {
    !blank(config.package@) && (match config.format {
        Some(f) => valid_format(f@),
        None => true,
    })
}

impl Config {
    /// Rejects a blank package name, then an unrecognized format string;
    /// every other configuration passes.
    pub fn validate(&self) -> (r: Result<(), ConfigError>)
        ensures
            r is Ok <==> config_acceptable(*self),
            blank(self.package@) ==> (r matches Err(e) && e == ConfigError::EmptyPackageName),
            !blank(self.package@) && !config_acceptable(*self) ==> (r matches Err(e) && e
                == ConfigError::InvalidFormat),
    {
        if is_blank(self.package.as_str()) {
            return Err(ConfigError::EmptyPackageName);
        }
        match &self.format {
            Some(f) => {
                let parsed = parse_output_format(f.as_str());
                if parsed.is_none() {
                    return Err(ConfigError::InvalidFormat);
                }
            },
            None => {},
        }
        Ok(())
    }

    /// Overrides this configuration with every value the file provides.
    /// The file's format is taken only when none was given on the command
    /// line; each numeric threshold is taken whenever the file has one.
    pub fn merge(self, file_config: FileConfig) -> (r: Config)
        ensures
            r.format == (if self.format is None {
                file_config.format
            } else {
                self.format
            }),
            r.max_days == (match file_config.max_days {
                Some(d) => d,
                None => self.max_days,
            }),
            r.min_weekly_downloads == (match file_config.min_weekly_downloads {
                Some(d) => d,
                None => self.min_weekly_downloads,
            }),
            r.min_monthly_downloads == (match file_config.min_monthly_downloads {
                Some(d) => d,
                None => self.min_monthly_downloads,
            }),
            r.min_versions == (match file_config.min_versions {
                Some(d) => d,
                None => self.min_versions,
            }),
            r.min_maintainers == (match file_config.min_maintainers {
                Some(d) => d,
                None => self.min_maintainers,
            }),
            r.package == self.package,
            r.config_file == self.config_file,
            r.history == self.history,
            r.check == self.check,
            r.verbose == self.verbose,
    {
        let format = if self.format.is_none() {
            file_config.format
        } else {
            self.format
        };
        let max_days = match file_config.max_days {
            Some(d) => d,
            None => self.max_days,
        };
        let min_weekly_downloads = match file_config.min_weekly_downloads {
            Some(d) => d,
            None => self.min_weekly_downloads,
        };
        let min_monthly_downloads = match file_config.min_monthly_downloads {
            Some(d) => d,
            None => self.min_monthly_downloads,
        };
        let min_versions = match file_config.min_versions {
            Some(d) => d,
            None => self.min_versions,
        };
        let min_maintainers = match file_config.min_maintainers {
            Some(d) => d,
            None => self.min_maintainers,
        };
        Config {
            package: self.package,
            format,
            config_file: self.config_file,
            history: self.history,
            check: self.check,
            max_days,
            min_weekly_downloads,
            min_monthly_downloads,
            min_versions,
            min_maintainers,
            verbose: self.verbose,
        }
    }

    /// Fills in the output format when none was chosen anywhere else.
    pub fn with_defaults(self) -> (r: Config)
        ensures
            self.format is Some ==> r.format == self.format,
            self.format is None ==> (r.format matches Some(f) && f@ == "default"@),
            r.package == self.package,
            r.config_file == self.config_file,
            r.history == self.history,
            r.check == self.check,
            r.max_days == self.max_days,
            r.min_weekly_downloads == self.min_weekly_downloads,
            r.min_monthly_downloads == self.min_monthly_downloads,
            r.min_versions == self.min_versions,
            r.min_maintainers == self.min_maintainers,
            r.verbose == self.verbose,
    {
        if self.format.is_none() {
            let format: String = "default".to_owned();
            Config {
                package: self.package,
                format: Some(format),
                config_file: self.config_file,
                history: self.history,
                check: self.check,
                max_days: self.max_days,
                min_weekly_downloads: self.min_weekly_downloads,
                min_monthly_downloads: self.min_monthly_downloads,
                min_versions: self.min_versions,
                min_maintainers: self.min_maintainers,
                verbose: self.verbose,
            }
        } else {
            self
        }
    }

    /// The name of the package under examination.
    pub fn get_package(&self) -> (r: &str)
        ensures
            r@ == self.package@,
    {
        self.package.as_str()
    }
}

} // verus!
