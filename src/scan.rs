//! Which files of a recursive folder scan are taken as invoice documents:
//! those whose file name has the extension `xml`, in lower case exactly.
use vstd::prelude::*;
use vstd::string::*;

verus! {

/// Whether a file name's extension is exactly `xml`: the name ends in `.xml`
/// and something stands before that dot (`.xml` alone is a hidden file
/// without an extension).
pub open spec fn has_xml_extension(name: Seq<char>) -> bool {
    let n = name.len();
    &&& n > 4
    &&& name[n - 4] == '.'
    &&& name[n - 3] == 'x'
    &&& name[n - 2] == 'm'
    &&& name[n - 1] == 'l'
}

/// Tells whether the file called `name` is taken by a folder scan.
pub fn is_xml_file_name(name: &str) -> (r: bool)
    ensures
        r == has_xml_extension(name@),
{
    let n = name.unicode_len();
    if n <= 4 {
        return false;
    }
    name.get_char(n - 4) == '.' && name.get_char(n - 3) == 'x' && name.get_char(n - 2) == 'm'
        && name.get_char(n - 1) == 'l'
}

/// One entry met by a folder scan.
#[derive(Debug, Clone, PartialEq)]
pub struct ScanEntry {
    /// The entry's full path.
    pub path: String,
    /// The last component of the path.
    pub file_name: String,
}

/// The paths of the entries that a scan takes, in scan order.
pub open spec fn selected(entries: Seq<ScanEntry>) -> Seq<String>
    decreases entries.len(),
{
    if entries.len() == 0 {
        Seq::empty()
    } else {
        let front = selected(entries.drop_last());
        if has_xml_extension(entries.last().file_name@) {
            front.push(entries.last().path)
        } else {
            front
        }
    }
}

/// The paths of the entries with the extension `xml`, in scan order.
pub fn select_xml_paths(entries: &Vec<ScanEntry>) -> (r: Vec<String>)
    ensures
        r@ == selected(entries@),
{
    let mut out: Vec<String> = Vec::new();
    let mut i: usize = 0;
    while i < entries.len()
        invariant
            i <= entries@.len(),
            out@ == selected(entries@.take(i as int)),
        decreases entries@.len() - i,
    {
        proof {
            assert(entries@.take(i + 1).drop_last() =~= entries@.take(i as int));
        }
        if is_xml_file_name(entries[i].file_name.as_str()) {
            out.push(entries[i].path.clone());
        }
        i = i + 1;
    }
    proof {
        assert(entries@.take(i as int) =~= entries@);
    }
    out
}

} // verus!
