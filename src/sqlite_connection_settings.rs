use vstd::prelude::*;
use crate::text::{push_signed_decimal, signed_decimal};

verus! {

/// Where and how to connect to a SQLite database.
#[derive(Debug, Clone)]
pub struct SqliteConnectionSettings {
    /// Path of the database file.
    pub data_source: String,
    /// Protocol version.
    pub version: i32,
    /// Whether the database uses UTF-16 text encoding.
    pub utf_16_encoding: bool,
}

/// The connection string for the given settings.
pub open spec fn connection_text(data_source: Seq<char>, version: i32, utf_16: bool) -> Seq<char> {
    "Data Source="@ + data_source + ";Version="@ + signed_decimal(version as int) + ";UseUTF16Encoding="@
        + (if utf_16 { "True"@ } else { "False"@ }) + ";"@
}

impl SqliteConnectionSettings {
    /// Settings for `database.sqlite`, version 3, without UTF-16 encoding.
    pub fn new() -> (r: Self)
        ensures
            r.data_source@ == "database.sqlite"@,
            r.version == 3,
            !r.utf_16_encoding,
    {
        SqliteConnectionSettings {
            data_source: String::from_str("database.sqlite"),
            version: 3,
            utf_16_encoding: false,
        }
    }

    pub fn set_data_source(&mut self, data_source: &str)
        ensures
            final(self).data_source@ == data_source@,
            final(self).version == old(self).version,
            final(self).utf_16_encoding == old(self).utf_16_encoding,
    {
        self.data_source = String::from_str(data_source);
    }

    pub fn get_data_source(&self) -> (r: &str)
        ensures
            r@ == self.data_source@,
    {
        self.data_source.as_str()
    }

    pub fn set_version(&mut self, version: i32)
        ensures
            final(self).version == version,
            final(self).data_source == old(self).data_source,
            final(self).utf_16_encoding == old(self).utf_16_encoding,
    {
        self.version = version;
    }

    pub fn use_utf_16_encoding(&mut self, value: bool)
        ensures
            final(self).utf_16_encoding == value,
            final(self).data_source == old(self).data_source,
            final(self).version == old(self).version,
    {
        self.utf_16_encoding = value;
    }

    /// The connection string:
    /// `Data Source=<path>;Version=<n>;UseUTF16Encoding=<True|False>;`.
    pub fn to_string(&self) -> (r: String)
        ensures
            r@ == connection_text(self.data_source@, self.version, self.utf_16_encoding),
    {
        let mut s = String::from_str("Data Source=");
        s.append(self.data_source.as_str());
        s.append(";Version=");
        push_signed_decimal(&mut s, self.version as i64);
        s.append(";UseUTF16Encoding=");
        if self.utf_16_encoding {
            s.append("True");
        } else {
            s.append("False");
        }
        s.append(";");
        s
    }
}

impl Default for SqliteConnectionSettings {
    fn default() -> (r: Self)
        ensures
            r.data_source@ == "database.sqlite"@,
            r.version == 3,
            !r.utf_16_encoding,
    {
        Self::new()
    }
}

} // verus!
