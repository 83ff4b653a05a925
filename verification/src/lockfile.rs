//! The locked-configuration document and its parser.
//!
//! The resolver writes, and this library reads, a line-oriented document.
//! Each line is terminated by a newline and is one of:
//!
//! * `h:<16 hex>` — exactly once, first: the content hash of the previous
//!   layer's bytes (the project config for the lock file, the lock file for
//!   the session state);
//! * `b:<tool>:<image>:<64 hex digest>:<path>` — a tool name bound to a
//!   digest-pinned image and the executable path inside it;
//! * `i:<image>:<tag>:<64 hex digest>` — a digest known for an image tag,
//!   used by the availability gate.
//!
//! The session-state document has the same shape.  A tool name may be bound
//! only once, and an (image, tag) pair may be listed only once.
use crate::bytes::all_hex_lower;
use crate::bytes::hex_val;
use crate::bytes::hex_val_u64;
use crate::bytes::is_hex_lower;
use crate::bytes::lemma_hex_val_bound;
use crate::bytes::pow16;
use crate::bytes::split_from;
use crate::bytes::split_on;
use crate::bytes::bytes_eq;
use vstd::prelude::*;

verus! {

pub const LINE_SEP: u8 = 0x0a;

pub const FIELD_SEP: u8 = 0x3a;

/// One tool binding: an image name, its pinned digest, and the executable
/// path inside the image.
pub ghost struct BinV {
    pub name: Seq<u8>,
    pub image: Seq<u8>,
    pub digest: Seq<u8>,
    pub path: Seq<u8>,
}

/// One image availability row: a digest declared for an image tag.
pub ghost struct ImageRowV {
    pub name: Seq<u8>,
    pub tag: Seq<u8>,
    pub digest: Seq<u8>,
}

/// The abstract content of a lock or state document.
pub ghost struct LockDocV {
    pub hash: u64,
    pub bins: Seq<BinV>,
    pub images: Seq<ImageRowV>,
}

#[derive(Debug)]
pub struct BinaryConfig {
    pub name: Vec<u8>,
    pub image: Vec<u8>,
    pub digest: Vec<u8>,
    pub path: Vec<u8>,
}

impl View for BinaryConfig {
    type V = BinV;

    open spec fn view(&self) -> BinV {
        BinV { name: self.name@, image: self.image@, digest: self.digest@, path: self.path@ }
    }
}

#[derive(Debug)]
pub struct ImageRow {
    pub name: Vec<u8>,
    pub tag: Vec<u8>,
    pub digest: Vec<u8>,
}

impl View for ImageRow {
    type V = ImageRowV;

    open spec fn view(&self) -> ImageRowV {
        ImageRowV { name: self.name@, tag: self.tag@, digest: self.digest@ }
    }
}

#[derive(Debug)]
pub struct LockDoc {
    pub hash: u64,
    pub bins: Vec<BinaryConfig>,
    pub images: Vec<ImageRow>,
}

impl View for LockDoc {
    type V = LockDocV;

    open spec fn view(&self) -> LockDocV {
        LockDocV {
            hash: self.hash,
            bins: self.bins@.map_values(|b: BinaryConfig| b@),
            images: self.images@.map_values(|r: ImageRow| r@),
        }
    }
}

/// Where parsing failed: the zero-based index of the offending line.
#[derive(PartialEq, Eq, Structural, Clone, Copy, Debug)]
pub struct ParseError {
    pub line: usize,
}

/// The lines of a document: pieces between newlines, with the empty piece
/// after a final newline dropped.
pub open spec fn doc_lines(s: Seq<u8>) -> Seq<Seq<u8>> {
    let ls = split_on(s, LINE_SEP);
    if ls.len() > 0 && ls.last().len() == 0 {
        ls.drop_last()
    } else {
        ls
    }
}

/// An image digest: exactly 64 lowercase hex characters.
pub open spec fn valid_digest(s: Seq<u8>) -> bool {
    s.len() == 64 && forall|j: int| 0 <= j < 64 ==> is_hex_lower(s[j])
}

/// Fields of a well-formed header line `h:<16 hex>`.
pub open spec fn is_header_line(f: Seq<Seq<u8>>) -> bool {
    f.len() == 2 && f[0] == seq![0x68u8] && f[1].len() == 16 && (forall|j: int|
        0 <= j < 16 ==> is_hex_lower(f[1][j]))
}

/// Fields of a well-formed tool-binding line `b:<name>:<image>:<digest>:<path>`.
pub open spec fn is_bin_line(f: Seq<Seq<u8>>) -> bool {
    f.len() == 5 && f[0] == seq![0x62u8] && f[1].len() > 0 && f[2].len() > 0 && valid_digest(f[3])
        && f[4].len() > 0
}

/// Fields of a well-formed image row `i:<image>:<tag>:<digest>`.
pub open spec fn is_img_line(f: Seq<Seq<u8>>) -> bool {
    f.len() == 4 && f[0] == seq![0x69u8] && f[1].len() > 0 && f[2].len() > 0 && valid_digest(f[3])
}

pub open spec fn bin_of(f: Seq<Seq<u8>>) -> BinV {
    BinV { name: f[1], image: f[2], digest: f[3], path: f[4] }
}

pub open spec fn img_of(f: Seq<Seq<u8>>) -> ImageRowV {
    ImageRowV { name: f[1], tag: f[2], digest: f[3] }
}

/// The binding a tool name resolves to: the first (and, in a parsed
/// document, only) entry with that name.
pub open spec fn bin_for(bins: Seq<BinV>, name: Seq<u8>) -> Option<BinV>
    decreases bins.len(),
{
    if bins.len() == 0 {
        None
    } else if bins[0].name == name {
        Some(bins[0])
    } else {
        bin_for(bins.skip(1), name)
    }
}

/// Whether a digest is already declared for this (image, tag) pair.
pub open spec fn has_image_row(images: Seq<ImageRowV>, name: Seq<u8>, tag: Seq<u8>) -> bool {
    exists|j: int| 0 <= j < images.len() && images[j].name == name && images[j].tag == tag
}

/// Fold the entry lines from `idx` on into `doc`; `Err` is the index of the
/// first line that is malformed or a duplicate.
pub open spec fn add_entries(doc: LockDocV, lines: Seq<Seq<u8>>, idx: int) -> Result<LockDocV, int>
    decreases lines.len() - idx,
{
    if idx < 0 || idx >= lines.len() {
        Ok(doc)
    } else {
        let f = split_on(lines[idx], FIELD_SEP);
        if is_bin_line(f) {
            if bin_for(doc.bins, f[1]) is Some {
                Err(idx)
            } else {
                add_entries(
                    LockDocV { hash: doc.hash, bins: doc.bins.push(bin_of(f)), images: doc.images },
                    lines,
                    idx + 1,
                )
            }
        } else if is_img_line(f) {
            if has_image_row(doc.images, f[1], f[2]) {
                Err(idx)
            } else {
                add_entries(
                    LockDocV {
                        hash: doc.hash,
                        bins: doc.bins,
                        images: doc.images.push(img_of(f)),
                    },
                    lines,
                    idx + 1,
                )
            }
        } else {
            Err(idx)
        }
    }
}

/// What a byte sequence parses to: the document, or the index of the line at
/// fault.  The header line is at fault when it is missing or malformed.
pub open spec fn parse_lock(s: Seq<u8>) -> Result<LockDocV, int> {
    let lines = doc_lines(s);
    if lines.len() == 0 {
        Err(0)
    } else {
        let f = split_on(lines[0], FIELD_SEP);
        if is_header_line(f) {
            add_entries(
                LockDocV {
                    hash: (hex_val(f[1]) as u64),
                    bins: Seq::<BinV>::empty(),
                    images: Seq::<ImageRowV>::empty(),
                },
                lines,
                1,
            )
        } else {
            Err(0)
        }
    }
}

/// First entry with this tool name, as an executable search.
pub fn find_bin(bins: &Vec<BinaryConfig>, name: &Vec<u8>) -> (r: Option<usize>)
    ensures
        match r {
            Some(i) => 0 <= i < bins@.len() && bin_for(
                bins@.map_values(|b: BinaryConfig| b@),
                name@,
            ) == Some(bins@[i as int]@),
            None => bin_for(bins@.map_values(|b: BinaryConfig| b@), name@) is None,
        },
{
    let ghost bv = bins@.map_values(|b: BinaryConfig| b@);
    proof {
        assert(bv.skip(0) =~= bv);
    }
    let mut i: usize = 0;
    while i < bins.len()
        invariant
            0 <= i <= bins@.len(),
            bv == bins@.map_values(|b: BinaryConfig| b@),
            bin_for(bv, name@) == bin_for(bv.skip(i as int), name@),
        decreases bins@.len() - i,
    {
        proof {
            assert(bv.skip(i as int)[0] == bv[i as int]);
        }
        if bytes_eq(&bins[i].name, name) {
            return Some(i);
        }
        proof {
            assert(bv.skip(i as int).skip(1) =~= bv.skip(i as int + 1));
        }
        i += 1;
    }
    proof {
        assert(bv.skip(bins@.len() as int) =~= Seq::<BinV>::empty());
    }
    None
}

/// Whether a digest is already declared for this (image, tag) pair, as an
/// executable search.
pub fn find_image_row(images: &Vec<ImageRow>, name: &Vec<u8>, tag: &Vec<u8>) -> (r: bool)
    ensures
        r == has_image_row(images@.map_values(|x: ImageRow| x@), name@, tag@),
{
    let ghost iv = images@.map_values(|x: ImageRow| x@);
    let mut i: usize = 0;
    while i < images.len()
        invariant
            0 <= i <= images@.len(),
            iv == images@.map_values(|x: ImageRow| x@),
            forall|j: int| 0 <= j < i ==> !(iv[j].name == name@ && iv[j].tag == tag@),
        decreases images@.len() - i,
    {
        if bytes_eq(&images[i].name, name) && bytes_eq(&images[i].tag, tag) {
            assert(iv[i as int].name == name@ && iv[i as int].tag == tag@);
            return true;
        }
        i += 1;
    }
    false
}

/// Does this field list have the shape of a header line?
fn header_shape(f: &Vec<Vec<u8>>) -> (r: bool)
    ensures
        r == is_header_line(f@.map_values(|p: Vec<u8>| p@)),
{
    let ghost fv = f@.map_values(|p: Vec<u8>| p@);
    if f.len() != 2 {
        return false;
    }
    proof {
        assert(fv[0] == f@[0]@);
        assert(fv[1] == f@[1]@);
    }
    if !(f[0].len() == 1 && f[0][0] == 0x68) {
        proof {
            if is_header_line(fv) {
                assert(f@[0]@.len() == 1 && f@[0]@[0] == 0x68);
            }
        }
        return false;
    }
    proof {
        assert(fv[0] =~= seq![0x68u8]);
    }
    if f[1].len() != 16 {
        return false;
    }
    let hex_ok = all_hex_lower(&f[1], 0, 16);
    proof {
        assert(hex_ok == (forall|j: int| 0 <= j < 16 ==> is_hex_lower(fv[1][j])));
    }
    hex_ok
}

/// Does this field list have the shape of a tool-binding line?
fn bin_shape(f: &Vec<Vec<u8>>) -> (r: bool)
    ensures
        r == is_bin_line(f@.map_values(|p: Vec<u8>| p@)),
{
    let ghost fv = f@.map_values(|p: Vec<u8>| p@);
    if f.len() != 5 {
        return false;
    }
    proof {
        assert(fv[0] == f@[0]@);
        assert(fv[1] == f@[1]@);
        assert(fv[2] == f@[2]@);
        assert(fv[3] == f@[3]@);
        assert(fv[4] == f@[4]@);
    }
    if !(f[0].len() == 1 && f[0][0] == 0x62) {
        proof {
            if is_bin_line(fv) {
                assert(f@[0]@.len() == 1 && f@[0]@[0] == 0x62);
            }
        }
        return false;
    }
    proof {
        assert(fv[0] =~= seq![0x62u8]);
    }
    if f[1].len() == 0 || f[2].len() == 0 || f[4].len() == 0 {
        return false;
    }
    if f[3].len() != 64 {
        return false;
    }
    let hex_ok = all_hex_lower(&f[3], 0, 64);
    proof {
        assert(hex_ok == (forall|j: int| 0 <= j < 64 ==> is_hex_lower(fv[3][j])));
    }
    hex_ok
}

/// Does this field list have the shape of an image row?
fn img_shape(f: &Vec<Vec<u8>>) -> (r: bool)
    ensures
        r == is_img_line(f@.map_values(|p: Vec<u8>| p@)),
{
    let ghost fv = f@.map_values(|p: Vec<u8>| p@);
    if f.len() != 4 {
        return false;
    }
    proof {
        assert(fv[0] == f@[0]@);
        assert(fv[1] == f@[1]@);
        assert(fv[2] == f@[2]@);
        assert(fv[3] == f@[3]@);
    }
    if !(f[0].len() == 1 && f[0][0] == 0x69) {
        proof {
            if is_img_line(fv) {
                assert(f@[0]@.len() == 1 && f@[0]@[0] == 0x69);
            }
        }
        return false;
    }
    proof {
        assert(fv[0] =~= seq![0x69u8]);
    }
    if f[1].len() == 0 || f[2].len() == 0 {
        return false;
    }
    if f[3].len() != 64 {
        return false;
    }
    let hex_ok = all_hex_lower(&f[3], 0, 64);
    proof {
        assert(hex_ok == (forall|j: int| 0 <= j < 64 ==> is_hex_lower(fv[3][j])));
    }
    hex_ok
}

/// Parse a lock or state document from its exact on-disk bytes.
pub fn parse_lock_doc(bytes: &Vec<u8>) -> (r: Result<LockDoc, ParseError>)
    ensures
        match r {
            Ok(doc) => parse_lock(bytes@) == Ok::<LockDocV, int>(doc@),
            Err(e) => parse_lock(bytes@) == Err::<LockDocV, int>(e.line as int),
        },
{
    let mut lines = split_from(bytes, 0, LINE_SEP);
    proof {
        assert(bytes@.skip(0) =~= bytes@);
    }
    if lines.len() > 0 && lines[lines.len() - 1].len() == 0 {
        lines.pop();
        proof {
            assert(lines@.map_values(|p: Vec<u8>| p@) =~= doc_lines(bytes@));
        }
    }
    let ghost lv = doc_lines(bytes@);
    proof {
        assert(lines@.map_values(|p: Vec<u8>| p@) =~= lv);
    }
    if lines.len() == 0 {
        return Err(ParseError { line: 0 });
    }
    let f = split_from(&lines[0], 0, FIELD_SEP);
    proof {
        assert(lines@[0]@ == lv[0]);
        assert(lines@[0]@.skip(0) =~= lv[0]);
    }
    let ghost fv = split_on(lv[0], FIELD_SEP);
    if !header_shape(&f) {
        return Err(ParseError { line: 0 });
    }
    proof {
        assert(f@[1]@ == fv[1]);
    }
    let h = hex_val_u64(&f[1], 0, 16);
    proof {
        assert(f@[1]@.subrange(0, 16) =~= fv[1]);
        lemma_hex_val_bound(fv[1]);
        assert(pow16(16) == 0x10000000000000000) by {
            reveal_with_fuel(pow16, 17);
        }
        assert(h == hex_val(fv[1]) as u64);
    }
    let mut doc = LockDoc { hash: h, bins: Vec::new(), images: Vec::new() };
    proof {
        assert(doc@.bins =~= Seq::<BinV>::empty());
        assert(doc@.images =~= Seq::<ImageRowV>::empty());
        assert(parse_lock(bytes@) == add_entries(doc@, lv, 1));
    }
    let mut idx: usize = 1;
    while idx < lines.len()
        invariant
            1 <= idx <= lines@.len(),
            lv == lines@.map_values(|p: Vec<u8>| p@),
            parse_lock(bytes@) == add_entries(doc@, lv, idx as int),
        decreases lines@.len() - idx,
    {
        let mut f = split_from(&lines[idx], 0, FIELD_SEP);
        proof {
            assert(lines@[idx as int]@ == lv[idx as int]);
            assert(lines@[idx as int]@.skip(0) =~= lv[idx as int]);
        }
        let ghost fv = split_on(lv[idx as int], FIELD_SEP);
        if bin_shape(&f) {
            proof {
                assert(fv[1] == f@[1]@);
                assert(fv[2] == f@[2]@);
                assert(fv[3] == f@[3]@);
                assert(fv[4] == f@[4]@);
            }
            if find_bin(&doc.bins, &f[1]).is_some() {
                return Err(ParseError { line: idx });
            }
            let path = f.pop().unwrap();
            let digest = f.pop().unwrap();
            let image = f.pop().unwrap();
            let name = f.pop().unwrap();
            let ghost old_doc = doc@;
            doc.bins.push(BinaryConfig { name, image, digest, path });
            proof {
                assert(doc@.bins =~= old_doc.bins.push(bin_of(fv)));
                assert(doc@.images =~= old_doc.images);
            }
        } else if img_shape(&f) {
            proof {
                assert(fv[1] == f@[1]@);
                assert(fv[2] == f@[2]@);
                assert(fv[3] == f@[3]@);
            }
            if find_image_row(&doc.images, &f[1], &f[2]) {
                return Err(ParseError { line: idx });
            }
            let digest = f.pop().unwrap();
            let tag = f.pop().unwrap();
            let name = f.pop().unwrap();
            let ghost old_doc = doc@;
            doc.images.push(ImageRow { name, tag, digest });
            proof {
                assert(doc@.images =~= old_doc.images.push(img_of(fv)));
                assert(doc@.bins =~= old_doc.bins);
            }
        } else {
            return Err(ParseError { line: idx });
        }
        idx += 1;
    }
    Ok(doc)
}

/// Look a tool name up in a parsed document.
pub fn lookup_binary<'a>(doc: &'a LockDoc, name: &Vec<u8>) -> (r: Option<&'a BinaryConfig>)
    ensures
        match r {
            Some(b) => bin_for(doc@.bins, name@) == Some(b@),
            None => bin_for(doc@.bins, name@) is None,
        },
{
    match find_bin(&doc.bins, name) {
        Some(i) => Some(&doc.bins[i]),
        None => None,
    }
}

} // verus!
