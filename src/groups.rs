//! Grouping modes, the file-type classification of extensions, and the group
//! key of a path.

use vstd::prelude::*;

use crate::paths::{
    extension_of, file_name_of, or_empty, parent_of, path_extension, path_file_name, path_parent,
};
use crate::text::{
    ascii_lower, eq_ignore_ascii_case, lemma_lower_ignores_case, str_eq, to_ascii_lowercase,
};

verus! {

broadcast use vstd::string::group_string_axioms;

/// How the sizes of files are grouped.
#[derive(Debug, Default, Copy, Clone, PartialEq, Eq, Structural, PartialOrd, Ord, Hash)]
pub enum GroupBy {
    /// Groups by file extension. This is the default
    #[default]
    Extension,
    /// Groups by file type. e.g. Images, Videos, Documents...
    Type,
    /// Groups by file name
    FileName,
    /// Groups by parent directory
    Directory,
}

/// Coarse category of a file, decided by its extension.
#[derive(Hash, Debug, Copy, Clone, PartialEq, Eq, Structural, PartialOrd, Ord)]
pub enum FileType {
    Image,
    Video,
    Document,
    Executable,
    Archive,
    Audio,
    Code,
    GenomicData,
    Other,
}

/// The display name of a file type.
pub open spec fn filetype_name(t: FileType) -> Seq<char> {
    match t {
        FileType::Image => "Image"@,
        FileType::Video => "Video"@,
        FileType::Document => "Document"@,
        FileType::Executable => "Executable"@,
        FileType::Archive => "Archive"@,
        FileType::Audio => "Audio"@,
        FileType::Code => "Code"@,
        FileType::GenomicData => "GenomicData"@,
        FileType::Other => "Other"@,
    }
}

/// Extensions classified as `Image`.
pub open spec fn is_image_ext(e: Seq<char>) -> bool {
    e == "jpg"@
        || e == "jpeg"@
        || e == "jpegxl"@
        || e == "png"@
        || e == "tiff"@
        || e == "raw"@
        || e == "nef"@
        || e == "webp"@
        || e == "psd"@
        || e == "heic"@
        || e == "gif"@
        || e == "avif"@
        || e == "dng"@
        || e == "svg"@
        || e == "bmp"@
}

fn image_ext(e: &str) -> (r: bool)
    ensures
        r == is_image_ext(e@),
{
    str_eq(e, "jpg")
        || str_eq(e, "jpeg")
        || str_eq(e, "jpegxl")
        || str_eq(e, "png")
        || str_eq(e, "tiff")
        || str_eq(e, "raw")
        || str_eq(e, "nef")
        || str_eq(e, "webp")
        || str_eq(e, "psd")
        || str_eq(e, "heic")
        || str_eq(e, "gif")
        || str_eq(e, "avif")
        || str_eq(e, "dng")
        || str_eq(e, "svg")
        || str_eq(e, "bmp")
}

/// Extensions classified as `Video`.
pub open spec fn is_video_ext(e: Seq<char>) -> bool {
    e == "mp4"@
        || e == "mkv"@
        || e == "avi"@
        || e == "webm"@
        || e == "flv"@
        || e == "f4v"@
        || e == "gifv"@
        || e == "mpeg"@
        || e == "mpg"@
        || e == "mov"@
        || e == "wmv"@
        || e == "3gp"@
        || e == "aaf"@
        || e == "avchd"@
}

fn video_ext(e: &str) -> (r: bool)
    ensures
        r == is_video_ext(e@),
{
    str_eq(e, "mp4")
        || str_eq(e, "mkv")
        || str_eq(e, "avi")
        || str_eq(e, "webm")
        || str_eq(e, "flv")
        || str_eq(e, "f4v")
        || str_eq(e, "gifv")
        || str_eq(e, "mpeg")
        || str_eq(e, "mpg")
        || str_eq(e, "mov")
        || str_eq(e, "wmv")
        || str_eq(e, "3gp")
        || str_eq(e, "aaf")
        || str_eq(e, "avchd")
}

/// Extensions classified as `Document`.
pub open spec fn is_document_ext(e: Seq<char>) -> bool {
    e == "pdf"@
        || e == "txt"@
        || e == "docx"@
        || e == "doc"@
        || e == "xlsx"@
        || e == "xls"@
        || e == "csv"@
        || e == "tsv"@
        || e == "md"@
        || e == "odt"@
        || e == "fodt"@
        || e == "pages"@
        || e == "rtf"@
        || e == "tex"@
        || e == "latex"@
        || e == "epub"@
        || e == "kpub"@
        || e == "ppt"@
        || e == "pptx"@
        || e == "otp"@
        || e == "odp"@
        || e == "pot"@
        || e == "pps"@
        || e == "bib"@
        || e == "log"@
        || e == "tmp"@
        || e == "temp"@
}

fn document_ext(e: &str) -> (r: bool)
    ensures
        r == is_document_ext(e@),
{
    str_eq(e, "pdf")
        || str_eq(e, "txt")
        || str_eq(e, "docx")
        || str_eq(e, "doc")
        || str_eq(e, "xlsx")
        || str_eq(e, "xls")
        || str_eq(e, "csv")
        || str_eq(e, "tsv")
        || str_eq(e, "md")
        || str_eq(e, "odt")
        || str_eq(e, "fodt")
        || str_eq(e, "pages")
        || str_eq(e, "rtf")
        || str_eq(e, "tex")
        || str_eq(e, "latex")
        || str_eq(e, "epub")
        || str_eq(e, "kpub")
        || str_eq(e, "ppt")
        || str_eq(e, "pptx")
        || str_eq(e, "otp")
        || str_eq(e, "odp")
        || str_eq(e, "pot")
        || str_eq(e, "pps")
        || str_eq(e, "bib")
        || str_eq(e, "log")
        || str_eq(e, "tmp")
        || str_eq(e, "temp")
}

/// Extensions classified as `Code`.
pub open spec fn is_code_ext(e: Seq<char>) -> bool {
    e == "py"@
        || e == "pyc"@
        || e == "pyo"@
        || e == "xml"@
        || e == "html"@
        || e == "htm"@
        || e == "htmx"@
        || e == "xhtml"@
        || e == "xht"@
        || e == "css"@
        || e == "js"@
        || e == "jsx"@
        || e == "json"@
        || e == "yaml"@
        || e == "toml"@
        || e == "ts"@
        || e == "c"@
        || e == "cpp"@
        || e == "h"@
        || e == "rs"@
        || e == "r"@
        || e == "go"@
        || e == "zig"@
        || e == "awk"@
        || e == "cs"@
        || e == "csproj"@
        || e == "ici"@
        || e == "ipynb"@
        || e == "kt"@
        || e == "lua"@
        || e == "php"@
        || e == "pl"@
        || e == "pm"@
        || e == "ps1"@
        || e == "sh"@
        || e == "fish"@
        || e == "asm"@
        || e == "d"@
        || e == "vim"@
        || e == "java"@
        || e == "lisp"@
        || e == "php3"@
        || e == "php4"@
        || e == "php5"@
        || e == "phps"@
        || e == "vb"@
        || e == "sql"@
}

fn code_ext(e: &str) -> (r: bool)
    ensures
        r == is_code_ext(e@),
{
    str_eq(e, "py")
        || str_eq(e, "pyc")
        || str_eq(e, "pyo")
        || str_eq(e, "xml")
        || str_eq(e, "html")
        || str_eq(e, "htm")
        || str_eq(e, "htmx")
        || str_eq(e, "xhtml")
        || str_eq(e, "xht")
        || str_eq(e, "css")
        || str_eq(e, "js")
        || str_eq(e, "jsx")
        || str_eq(e, "json")
        || str_eq(e, "yaml")
        || str_eq(e, "toml")
        || str_eq(e, "ts")
        || str_eq(e, "c")
        || str_eq(e, "cpp")
        || str_eq(e, "h")
        || str_eq(e, "rs")
        || str_eq(e, "r")
        || str_eq(e, "go")
        || str_eq(e, "zig")
        || str_eq(e, "awk")
        || str_eq(e, "cs")
        || str_eq(e, "csproj")
        || str_eq(e, "ici")
        || str_eq(e, "ipynb")
        || str_eq(e, "kt")
        || str_eq(e, "lua")
        || str_eq(e, "php")
        || str_eq(e, "pl")
        || str_eq(e, "pm")
        || str_eq(e, "ps1")
        || str_eq(e, "sh")
        || str_eq(e, "fish")
        || str_eq(e, "asm")
        || str_eq(e, "d")
        || str_eq(e, "vim")
        || str_eq(e, "java")
        || str_eq(e, "lisp")
        || str_eq(e, "php3")
        || str_eq(e, "php4")
        || str_eq(e, "php5")
        || str_eq(e, "phps")
        || str_eq(e, "vb")
        || str_eq(e, "sql")
}

/// Extensions classified as `Executable`.
pub open spec fn is_executable_ext(e: Seq<char>) -> bool {
    e == "exe"@
        || e == "apk"@
        || e == "o"@
        || e == "so"@
        || e == "app"@
        || e == "dll"@
        || e == "elf"@
        || e == "jar"@
        || e == "lib"@
}

fn executable_ext(e: &str) -> (r: bool)
    ensures
        r == is_executable_ext(e@),
{
    str_eq(e, "exe")
        || str_eq(e, "apk")
        || str_eq(e, "o")
        || str_eq(e, "so")
        || str_eq(e, "app")
        || str_eq(e, "dll")
        || str_eq(e, "elf")
        || str_eq(e, "jar")
        || str_eq(e, "lib")
}

/// Extensions classified as `Audio`.
pub open spec fn is_audio_ext(e: Seq<char>) -> bool {
    e == "mp3"@
        || e == "aiff"@
        || e == "aif"@
        || e == "aifc"@
        || e == "wav"@
        || e == "flac"@
        || e == "wma"@
        || e == "dts"@
        || e == "ac3"@
        || e == "aac"@
        || e == "ots"@
        || e == "ogg"@
}

fn audio_ext(e: &str) -> (r: bool)
    ensures
        r == is_audio_ext(e@),
{
    str_eq(e, "mp3")
        || str_eq(e, "aiff")
        || str_eq(e, "aif")
        || str_eq(e, "aifc")
        || str_eq(e, "wav")
        || str_eq(e, "flac")
        || str_eq(e, "wma")
        || str_eq(e, "dts")
        || str_eq(e, "ac3")
        || str_eq(e, "aac")
        || str_eq(e, "ots")
        || str_eq(e, "ogg")
}

/// Extensions classified as `Archive`.
pub open spec fn is_archive_ext(e: Seq<char>) -> bool {
    e == "gz"@
        || e == "gzip"@
        || e == "zst"@
        || e == "zstd"@
        || e == "zip"@
        || e == "7z"@
        || e == "7zip"@
        || e == "rar"@
        || e == "tar"@
        || e == "bin"@
        || e == "dat"@
        || e == "bz2"@
        || e == "pak"@
        || e == "par"@
        || e == "pax"@
        || e == "sqlite"@
        || e == "sq"@
        || e == "vbox"@
}

fn archive_ext(e: &str) -> (r: bool)
    ensures
        r == is_archive_ext(e@),
{
    str_eq(e, "gz")
        || str_eq(e, "gzip")
        || str_eq(e, "zst")
        || str_eq(e, "zstd")
        || str_eq(e, "zip")
        || str_eq(e, "7z")
        || str_eq(e, "7zip")
        || str_eq(e, "rar")
        || str_eq(e, "tar")
        || str_eq(e, "bin")
        || str_eq(e, "dat")
        || str_eq(e, "bz2")
        || str_eq(e, "pak")
        || str_eq(e, "par")
        || str_eq(e, "pax")
        || str_eq(e, "sqlite")
        || str_eq(e, "sq")
        || str_eq(e, "vbox")
}

/// Extensions classified as `GenomicData`.
pub open spec fn is_genomic_data_ext(e: Seq<char>) -> bool {
    e == "bam"@
        || e == "bai"@
        || e == "sam"@
        || e == "bed"@
        || e == "gtf"@
        || e == "gtf2"@
        || e == "gtf3"@
        || e == "gff"@
        || e == "gff2"@
        || e == "gff3"@
        || e == "bedpe"@
        || e == "cram"@
        || e == "sra"@
        || e == "fastq"@
        || e == "fasta"@
        || e == "fa"@
        || e == "fq"@
        || e == "fasterq"@
        || e == "embl"@
        || e == "genbank"@
        || e == "pdb"@
        || e == "ncbi"@
        || e == "maf"@
        || e == "nwk"@
        || e == "phd"@
        || e == "vcf"@
        || e == "pod5"@
}

fn genomic_data_ext(e: &str) -> (r: bool)
    ensures
        r == is_genomic_data_ext(e@),
{
    str_eq(e, "bam")
        || str_eq(e, "bai")
        || str_eq(e, "sam")
        || str_eq(e, "bed")
        || str_eq(e, "gtf")
        || str_eq(e, "gtf2")
        || str_eq(e, "gtf3")
        || str_eq(e, "gff")
        || str_eq(e, "gff2")
        || str_eq(e, "gff3")
        || str_eq(e, "bedpe")
        || str_eq(e, "cram")
        || str_eq(e, "sra")
        || str_eq(e, "fastq")
        || str_eq(e, "fasta")
        || str_eq(e, "fa")
        || str_eq(e, "fq")
        || str_eq(e, "fasterq")
        || str_eq(e, "embl")
        || str_eq(e, "genbank")
        || str_eq(e, "pdb")
        || str_eq(e, "ncbi")
        || str_eq(e, "maf")
        || str_eq(e, "nwk")
        || str_eq(e, "phd")
        || str_eq(e, "vcf")
        || str_eq(e, "pod5")
}

/// The category of a lowercase extension; an extension in no list is `Other`.
pub open spec fn filetype_of(e: Seq<char>) -> FileType {
    if is_image_ext(e) {
        FileType::Image
    } else if is_video_ext(e) {
        FileType::Video
    } else if is_document_ext(e) {
        FileType::Document
    } else if is_code_ext(e) {
        FileType::Code
    } else if is_executable_ext(e) {
        FileType::Executable
    } else if is_audio_ext(e) {
        FileType::Audio
    } else if is_archive_ext(e) {
        FileType::Archive
    } else if is_genomic_data_ext(e) {
        FileType::GenomicData
    } else {
        FileType::Other
    }
}

impl FileType {
    /// The category of an extension, which is compared as given.
    pub fn get_filetype(ext: &str) -> (r: FileType)
        ensures
            r == filetype_of(ext@),
    {
        if image_ext(ext) {
            FileType::Image
        } else if video_ext(ext) {
            FileType::Video
        } else if document_ext(ext) {
            FileType::Document
        } else if code_ext(ext) {
            FileType::Code
        } else if executable_ext(ext) {
            FileType::Executable
        } else if audio_ext(ext) {
            FileType::Audio
        } else if archive_ext(ext) {
            FileType::Archive
        } else if genomic_data_ext(ext) {
            FileType::GenomicData
        } else {
            FileType::Other
        }
    }

    /// The category of a path: its extension or, when it has none, its file
    /// name, in ASCII lowercase.
    pub fn from_path(path: &str) -> (r: FileType)
        ensures
            r == filetype_of(ascii_lower(or_empty(path_class_text(path@)))),
    {
        let key = match path_extension(path) {
            Some(e) => e,
            None => match path_file_name(path) {
                Some(n) => n,
                None => String::new(),
            },
        };
        let lower = to_ascii_lowercase(key.as_str());
        FileType::get_filetype(lower.as_str())
    }

    /// The display name of the file type.
    pub fn name(&self) -> (r: String)
        ensures
            r@ == filetype_name(*self),
    {
        let s = match self {
            FileType::Image => "Image",
            FileType::Video => "Video",
            FileType::Document => "Document",
            FileType::Executable => "Executable",
            FileType::Archive => "Archive",
            FileType::Audio => "Audio",
            FileType::Code => "Code",
            FileType::GenomicData => "GenomicData",
            FileType::Other => "Other",
        };
        s.to_string()
    }
}

/// The text that classifies a path: its extension, else its file name.
pub open spec fn path_class_text(p: Seq<char>) -> Option<Seq<char>> {
    match extension_of(p) {
        Some(e) => Some(e),
        None => file_name_of(p),
    }
}

/// The lowercase extension of a path, or the empty string if it has none.
pub open spec fn extension_key(p: Seq<char>) -> Seq<char> {
    ascii_lower(or_empty(extension_of(p)))
}

/// The key under which a file at path `p` is accumulated in mode `mode`.
pub open spec fn group_key(mode: GroupBy, p: Seq<char>) -> Seq<char> {
    match mode {
        GroupBy::Extension => extension_key(p),
        GroupBy::Type => filetype_name(filetype_of(extension_key(p))),
        GroupBy::FileName => or_empty(file_name_of(p)),
        GroupBy::Directory => match parent_of(p) {
            Some(q) => or_empty(file_name_of(q)),
            None => Seq::empty(),
        },
    }
}

/// The empty string names no file type.
proof fn lemma_empty_is_other()
    ensures
        filetype_of(Seq::empty()) == FileType::Other,
{
    reveal_strlit("jpg");
    reveal_strlit("jpeg");
    reveal_strlit("jpegxl");
    reveal_strlit("png");
    reveal_strlit("tiff");
    reveal_strlit("raw");
    reveal_strlit("nef");
    reveal_strlit("webp");
    reveal_strlit("psd");
    reveal_strlit("heic");
    reveal_strlit("gif");
    reveal_strlit("avif");
    reveal_strlit("dng");
    reveal_strlit("svg");
    reveal_strlit("bmp");
    reveal_strlit("mp4");
    reveal_strlit("mkv");
    reveal_strlit("avi");
    reveal_strlit("webm");
    reveal_strlit("flv");
    reveal_strlit("f4v");
    reveal_strlit("gifv");
    reveal_strlit("mpeg");
    reveal_strlit("mpg");
    reveal_strlit("mov");
    reveal_strlit("wmv");
    reveal_strlit("3gp");
    reveal_strlit("aaf");
    reveal_strlit("avchd");
    reveal_strlit("pdf");
    reveal_strlit("txt");
    reveal_strlit("docx");
    reveal_strlit("doc");
    reveal_strlit("xlsx");
    reveal_strlit("xls");
    reveal_strlit("csv");
    reveal_strlit("tsv");
    reveal_strlit("md");
    reveal_strlit("odt");
    reveal_strlit("fodt");
    reveal_strlit("pages");
    reveal_strlit("rtf");
    reveal_strlit("tex");
    reveal_strlit("latex");
    reveal_strlit("epub");
    reveal_strlit("kpub");
    reveal_strlit("ppt");
    reveal_strlit("pptx");
    reveal_strlit("otp");
    reveal_strlit("odp");
    reveal_strlit("pot");
    reveal_strlit("pps");
    reveal_strlit("bib");
    reveal_strlit("log");
    reveal_strlit("tmp");
    reveal_strlit("temp");
    reveal_strlit("py");
    reveal_strlit("pyc");
    reveal_strlit("pyo");
    reveal_strlit("xml");
    reveal_strlit("html");
    reveal_strlit("htm");
    reveal_strlit("htmx");
    reveal_strlit("xhtml");
    reveal_strlit("xht");
    reveal_strlit("css");
    reveal_strlit("js");
    reveal_strlit("jsx");
    reveal_strlit("json");
    reveal_strlit("yaml");
    reveal_strlit("toml");
    reveal_strlit("ts");
    reveal_strlit("c");
    reveal_strlit("cpp");
    reveal_strlit("h");
    reveal_strlit("rs");
    reveal_strlit("r");
    reveal_strlit("go");
    reveal_strlit("zig");
    reveal_strlit("awk");
    reveal_strlit("cs");
    reveal_strlit("csproj");
    reveal_strlit("ici");
    reveal_strlit("ipynb");
    reveal_strlit("kt");
    reveal_strlit("lua");
    reveal_strlit("php");
    reveal_strlit("pl");
    reveal_strlit("pm");
    reveal_strlit("ps1");
    reveal_strlit("sh");
    reveal_strlit("fish");
    reveal_strlit("asm");
    reveal_strlit("d");
    reveal_strlit("vim");
    reveal_strlit("java");
    reveal_strlit("lisp");
    reveal_strlit("php3");
    reveal_strlit("php4");
    reveal_strlit("php5");
    reveal_strlit("phps");
    reveal_strlit("vb");
    reveal_strlit("sql");
    reveal_strlit("exe");
    reveal_strlit("apk");
    reveal_strlit("o");
    reveal_strlit("so");
    reveal_strlit("app");
    reveal_strlit("dll");
    reveal_strlit("elf");
    reveal_strlit("jar");
    reveal_strlit("lib");
    reveal_strlit("mp3");
    reveal_strlit("aiff");
    reveal_strlit("aif");
    reveal_strlit("aifc");
    reveal_strlit("wav");
    reveal_strlit("flac");
    reveal_strlit("wma");
    reveal_strlit("dts");
    reveal_strlit("ac3");
    reveal_strlit("aac");
    reveal_strlit("ots");
    reveal_strlit("ogg");
    reveal_strlit("gz");
    reveal_strlit("gzip");
    reveal_strlit("zst");
    reveal_strlit("zstd");
    reveal_strlit("zip");
    reveal_strlit("7z");
    reveal_strlit("7zip");
    reveal_strlit("rar");
    reveal_strlit("tar");
    reveal_strlit("bin");
    reveal_strlit("dat");
    reveal_strlit("bz2");
    reveal_strlit("pak");
    reveal_strlit("par");
    reveal_strlit("pax");
    reveal_strlit("sqlite");
    reveal_strlit("sq");
    reveal_strlit("vbox");
    reveal_strlit("bam");
    reveal_strlit("bai");
    reveal_strlit("sam");
    reveal_strlit("bed");
    reveal_strlit("gtf");
    reveal_strlit("gtf2");
    reveal_strlit("gtf3");
    reveal_strlit("gff");
    reveal_strlit("gff2");
    reveal_strlit("gff3");
    reveal_strlit("bedpe");
    reveal_strlit("cram");
    reveal_strlit("sra");
    reveal_strlit("fastq");
    reveal_strlit("fasta");
    reveal_strlit("fa");
    reveal_strlit("fq");
    reveal_strlit("fasterq");
    reveal_strlit("embl");
    reveal_strlit("genbank");
    reveal_strlit("pdb");
    reveal_strlit("ncbi");
    reveal_strlit("maf");
    reveal_strlit("nwk");
    reveal_strlit("phd");
    reveal_strlit("vcf");
    reveal_strlit("pod5");
    assert(Seq::<char>::empty().len() == 0);
}

/// A path without an extension is grouped under the empty key by extension,
/// and under `Other` by file type.
pub proof fn lemma_no_extension_key(p: Seq<char>)
    requires
        extension_of(p) is None,
    ensures
        group_key(GroupBy::Extension, p) == Seq::<char>::empty(),
        group_key(GroupBy::Type, p) == "Other"@,
{
    assert(ascii_lower(Seq::<char>::empty()) =~= Seq::<char>::empty());
    lemma_empty_is_other();
}

/// Grouping by extension or by file type ignores ASCII case: two paths whose
/// extensions differ only in case land in the same group.
pub proof fn lemma_extension_key_ignores_case(p: Seq<char>, q: Seq<char>)
    requires
        eq_ignore_ascii_case(or_empty(extension_of(p)), or_empty(extension_of(q))),
    ensures
        group_key(GroupBy::Extension, p) == group_key(GroupBy::Extension, q),
        group_key(GroupBy::Type, p) == group_key(GroupBy::Type, q),
{
    lemma_lower_ignores_case(or_empty(extension_of(p)), or_empty(extension_of(q)));
}

fn extension_text(path: &str) -> (r: String)
    ensures
        r@ == extension_key(path@),
{
    match path_extension(path) {
        Some(e) => to_ascii_lowercase(e.as_str()),
        None => {
            assert(ascii_lower(Seq::<char>::empty()) =~= Seq::<char>::empty());
            String::new()
        },
    }
}

fn file_name_text(path: &str) -> (r: String)
    ensures
        r@ == or_empty(file_name_of(path@)),
{
    match path_file_name(path) {
        Some(n) => n,
        None => String::new(),
    }
}

impl GroupBy {
    /// The key under which the file at `path` is accumulated.
    pub fn key(&self, path: &str) -> (r: String)
        ensures
            r@ == group_key(*self, path@),
    {
        match self {
            GroupBy::Extension => extension_text(path),
            GroupBy::Type => {
                let ext = extension_text(path);
                FileType::get_filetype(ext.as_str()).name()
            },
            GroupBy::FileName => file_name_text(path),
            GroupBy::Directory => match path_parent(path) {
                Some(q) => file_name_text(q.as_str()),
                None => String::new(),
            },
        }
    }
}

} // verus!
