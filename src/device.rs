use vstd::prelude::*;

verus! {

/// A request of the ROM bootloader's command protocol.
#[derive(Clone, Copy, Debug, PartialEq, Eq, Structural)]
pub enum Command {
    FlashBegin,
    FlashData,
    FlashEnd,
    MemBegin,
    MemEnd,
    MemData,
    SyncFrame,
    WriteReg,
    ReadReg,
    SpiSetParams,
    SpiAttach,
    ChangeBaud,
    FlashDeflateBegin,
    FlashDeflateData,
    FlashDeflateEnd,
    FlashMd5,
    FlashDetect,
}

impl Command {
    pub open spec fn spec_name(self) -> Seq<char> {
        match self {
            Command::FlashBegin => "FlashBegin"@,
            Command::FlashData => "FlashData"@,
            Command::FlashEnd => "FlashEnd"@,
            Command::MemBegin => "MemBegin"@,
            Command::MemEnd => "MemEnd"@,
            Command::MemData => "MemData"@,
            Command::SyncFrame => "SyncFrame"@,
            Command::WriteReg => "WriteReg"@,
            Command::ReadReg => "ReadReg"@,
            Command::SpiSetParams => "SpiSetParams"@,
            Command::SpiAttach => "SpiAttach"@,
            Command::ChangeBaud => "ChangeBaud"@,
            Command::FlashDeflateBegin => "FlashDeflateBegin"@,
            Command::FlashDeflateData => "FlashDeflateData"@,
            Command::FlashDeflateEnd => "FlashDeflateEnd"@,
            Command::FlashMd5 => "FlashMd5"@,
            Command::FlashDetect => "FlashDetect"@,
        }
    }

    /// The command's name, as shown in diagnostics.
    pub fn name(&self) -> (r: &'static str)
        ensures
            r@ == self.spec_name(),
    {
        match self {
            Command::FlashBegin => "FlashBegin",
            Command::FlashData => "FlashData",
            Command::FlashEnd => "FlashEnd",
            Command::MemBegin => "MemBegin",
            Command::MemEnd => "MemEnd",
            Command::MemData => "MemData",
            Command::SyncFrame => "SyncFrame",
            Command::WriteReg => "WriteReg",
            Command::ReadReg => "ReadReg",
            Command::SpiSetParams => "SpiSetParams",
            Command::SpiAttach => "SpiAttach",
            Command::ChangeBaud => "ChangeBaud",
            Command::FlashDeflateBegin => "FlashDeflateBegin",
            Command::FlashDeflateData => "FlashDeflateData",
            Command::FlashDeflateEnd => "FlashDeflateEnd",
            Command::FlashMd5 => "FlashMd5",
            Command::FlashDetect => "FlashDetect",
        }
    }
}

/// A layout in which a firmware image can be written.
#[derive(Clone, Copy, Debug, PartialEq, Eq, Structural)]
pub enum ImageFormatId {
    Bootloader,
    DirectBoot,
}

impl ImageFormatId {
    pub open spec fn spec_name(self) -> Seq<char> {
        match self {
            ImageFormatId::Bootloader => "bootloader"@,
            ImageFormatId::DirectBoot => "direct-boot"@,
        }
    }

    /// The format's name, as given on the command line.
    pub fn name(&self) -> (r: &'static str)
        ensures
            r@ == self.spec_name(),
    {
        match self {
            ImageFormatId::Bootloader => "bootloader",
            ImageFormatId::DirectBoot => "direct-boot",
        }
    }

    pub open spec fn spec_all() -> Seq<ImageFormatId> {
        seq![ImageFormatId::Bootloader, ImageFormatId::DirectBoot]
    }

    /// Every image format, in declaration order.
    pub fn all() -> (r: Vec<ImageFormatId>)
        ensures
            r@ == Self::spec_all(),
    {
        let r = vec![ImageFormatId::Bootloader, ImageFormatId::DirectBoot];
        assert(r@ =~= Self::spec_all());
        r
    }
}

/// A supported target chip.
#[derive(Clone, Copy, Debug, PartialEq, Eq, Structural)]
pub enum Chip {
    Esp32,
    Esp32c3,
    Esp8266,
}

impl Chip {
    pub open spec fn spec_name(self) -> Seq<char> {
        match self {
            Chip::Esp32 => "esp32"@,
            Chip::Esp32c3 => "esp32-c3"@,
            Chip::Esp8266 => "esp8266"@,
        }
    }

    /// The chip's name, as shown in diagnostics.
    pub fn name(&self) -> (r: &'static str)
        ensures
            r@ == self.spec_name(),
    {
        match self {
            Chip::Esp32 => "esp32",
            Chip::Esp32c3 => "esp32-c3",
            Chip::Esp8266 => "esp8266",
        }
    }

    pub open spec fn spec_supported_image_formats(self) -> Seq<ImageFormatId> {
        match self {
            Chip::Esp32c3 => seq![ImageFormatId::Bootloader, ImageFormatId::DirectBoot],
            _ => seq![ImageFormatId::Bootloader],
        }
    }

    /// The image formats that this chip can boot.
    pub fn supported_image_formats(&self) -> (r: Vec<ImageFormatId>)
        ensures
            r@ == self.spec_supported_image_formats(),
    {
        let r = match self {
            Chip::Esp32c3 => vec![ImageFormatId::Bootloader, ImageFormatId::DirectBoot],
            _ => vec![ImageFormatId::Bootloader],
        };
        assert(r@ =~= self.spec_supported_image_formats());
        r
    }
}

/// The names of `fs`, separated by `", "`.
pub open spec fn joined_names(fs: Seq<ImageFormatId>) -> Seq<char>
    decreases fs.len(),
{
    if fs.len() == 0 {
        Seq::empty()
    } else if fs.len() == 1 {
        fs[0].spec_name()
    } else {
        joined_names(fs.drop_last()) + ", "@ + fs.last().spec_name()
    }
}

/// Joins the names of `fs` with `", "`.
pub fn join_names(fs: &Vec<ImageFormatId>) -> (r: String)
    ensures
        r@ == joined_names(fs@),
{
    let mut out = String::new();
    let mut i: usize = 0;
    while i < fs.len()
        invariant
            i <= fs@.len(),
            out@ == joined_names(fs@.subrange(0, i as int)),
        decreases fs@.len() - i,
    {
        assert(fs@.subrange(0, i + 1).drop_last() =~= fs@.subrange(0, i as int));
        if i > 0 {
            out.append(", ");
        }
        out.append(fs[i].name());
        i = i + 1;
    }
    assert(fs@.subrange(0, fs@.len() as int) =~= fs@);
    out
}

} // verus!
