use vstd::prelude::*;

use crate::text::{decimal, decimal_string};

verus! {

/// The type column of a partition table entry.
#[derive(Clone, Copy, Debug, PartialEq, Eq, Structural)]
pub enum Type {
    App,
    Data,
}

/// Subtypes of an app partition.
#[derive(Clone, Copy, Debug, PartialEq, Eq, Structural)]
pub enum AppType {
    Factory,
    Ota(u8),
    Test,
}

/// Subtypes of a data partition.
#[derive(Clone, Copy, Debug, PartialEq, Eq, Structural)]
pub enum DataType {
    Ota,
    Phy,
    Nvs,
    CoreDump,
    NvsKeys,
    Efuse,
    Esphttpd,
    Fat,
    Spiffs,
}

/// The subtype column of a partition table entry.
#[derive(Clone, Copy, Debug, PartialEq, Eq, Structural)]
pub enum SubType {
    App(AppType),
    Data(DataType),
}

impl Type {
    pub open spec fn spec_name(self) -> Seq<char> {
        match self {
            Type::App => "app"@,
            Type::Data => "data"@,
        }
    }

    /// The type's name in a partition table.
    pub fn name(&self) -> (r: &'static str)
        ensures
            r@ == self.spec_name(),
    {
        match self {
            Type::App => "app",
            Type::Data => "data",
        }
    }

    pub open spec fn spec_subtype_hint(self) -> Seq<char> {
        match self {
            Type::App => "'factory', 'ota_0' through 'ota_15' and 'test'"@,
            Type::Data =>
                "'ota', 'phy', 'nvs', 'coredump', 'nvs_keys', 'efuse', 'esphttpd', 'fat' and 'spiffs'"@,
        }
    }

    /// The subtypes that this type accepts, for help texts.
    pub fn subtype_hint(&self) -> (r: &'static str)
        ensures
            r@ == self.spec_subtype_hint(),
    {
        match self {
            Type::App => "'factory', 'ota_0' through 'ota_15' and 'test'",
            Type::Data =>
                "'ota', 'phy', 'nvs', 'coredump', 'nvs_keys', 'efuse', 'esphttpd', 'fat' and 'spiffs'",
        }
    }
}

impl DataType {
    pub open spec fn spec_name(self) -> Seq<char> {
        match self {
            DataType::Ota => "ota"@,
            DataType::Phy => "phy"@,
            DataType::Nvs => "nvs"@,
            DataType::CoreDump => "coredump"@,
            DataType::NvsKeys => "nvs_keys"@,
            DataType::Efuse => "efuse"@,
            DataType::Esphttpd => "esphttpd"@,
            DataType::Fat => "fat"@,
            DataType::Spiffs => "spiffs"@,
        }
    }

    /// The subtype's name in a partition table.
    pub fn name(&self) -> (r: &'static str)
        ensures
            r@ == self.spec_name(),
    {
        match self {
            DataType::Ota => "ota",
            DataType::Phy => "phy",
            DataType::Nvs => "nvs",
            DataType::CoreDump => "coredump",
            DataType::NvsKeys => "nvs_keys",
            DataType::Efuse => "efuse",
            DataType::Esphttpd => "esphttpd",
            DataType::Fat => "fat",
            DataType::Spiffs => "spiffs",
        }
    }
}

impl SubType {
    pub open spec fn spec_name(self) -> Seq<char> {
        match self {
            SubType::App(AppType::Factory) => "factory"@,
            SubType::App(AppType::Ota(n)) => "ota_"@ + decimal(n as nat),
            SubType::App(AppType::Test) => "test"@,
            SubType::Data(d) => d.spec_name(),
        }
    }

    /// The subtype's name in a partition table.
    pub fn name(&self) -> (r: String)
        ensures
            r@ == self.spec_name(),
    {
        match self {
            SubType::App(AppType::Factory) => "factory".to_owned(),
            SubType::App(AppType::Ota(n)) => {
                let mut s = "ota_".to_owned();
                let digits = decimal_string(*n as u64);
                s.append(digits.as_str());
                s
            },
            SubType::App(AppType::Test) => "test".to_owned(),
            SubType::Data(d) => d.name().to_owned(),
        }
    }
}

} // verus!
