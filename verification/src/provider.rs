use vstd::prelude::*;
use crate::hresult::{invalid_unicode_hresult, win32_hresult, ERROR_NO_UNICODE_TRANSLATION};
use crate::pipeline::{begin, start, Command, Stage};
use crate::source_path::{hinted_source, hinted_source_path, forward_slash, SOURCE_HINTS};
use crate::wide::{decode_utf16, encode_utf16, lemma_decode_without_nul, lemma_encode_without_nul, law_decode_inverts_encode, string_from_utf16};

verus! {

/// The state of one thumbnail provider object: the path of the file that
/// the shell asked it to render. The path never holds a NUL character.
pub struct ThumbnailProvider {
    file_path: String,
}

impl View for ThumbnailProvider {
    type V = Seq<char>;

    closed spec fn view(&self) -> Seq<char> {
        self.file_path@
    }
}

impl ThumbnailProvider {
    #[verifier::type_invariant]
    spec fn path_has_no_nul(self) -> bool {
        !self.file_path@.contains('\0')
    }

    /// A provider that has not been given a file yet.
    pub fn new() -> (provider: ThumbnailProvider)
        ensures
            provider@ == Seq::<char>::empty(),
    {
        ThumbnailProvider { file_path: String::new() }
    }

    /// Takes the file path that the shell hands over as UTF-16 code units
    /// (without the terminating zero). A path that is not valid UTF-16 is
    /// refused with `ERROR_NO_UNICODE_TRANSLATION` as an `HRESULT`, and the
    /// provider keeps the path it had.
    pub fn initialize(&mut self, wide_path: &[u16]) -> (res: Result<(), i32>)
        requires
            !wide_path@.contains(0u16),
        ensures
            decode_utf16(wide_path@) matches Some(path) ==> res is Ok && final(self)@ == path,
            decode_utf16(wide_path@) is None ==> res == Err::<(), i32>(
                win32_hresult(ERROR_NO_UNICODE_TRANSLATION),
            ) && final(self)@ == old(self)@,
            res is Err ==> res == Err::<(), i32>(-2147023783i32) && final(self)@ == old(self)@,
    {
        match string_from_utf16(wide_path) {
            Ok(path) => {
                proof {
                    lemma_decode_without_nul(wide_path@);
                }
                self.file_path = path;
                Ok(())
            },
            Err(_) => Err(invalid_unicode_hresult()),
        }
    }

    /// The name under which libvips loads the file: the path with forward
    /// slashes and the load options appended. It holds no NUL character.
    pub fn thumbnail_source(&self) -> (source: String)
        ensures
            source@ == hinted_source(self@),
            !source@.contains('\0'),
    {
        proof {
            use_type_invariant(self);
        }
        let source = hinted_source_path(self.file_path.as_str());
        proof {
            reveal_strlit("[thumbnail=true,n=1,access=sequential]");
            let mapped = self@.map_values(|c: char| forward_slash(c));
            assert forall|k: int| 0 <= k < source@.len() implies source@[k] != '\0' by {
                if k < mapped.len() {
                    assert(self@.contains(self@[k]));
                } else {
                    assert(source@[k] == SOURCE_HINTS@[k - mapped.len()]);
                }
            }
        }
        source
    }

    /// Starts a thumbnail request at the edge `cx` for the current path.
    pub fn begin_thumbnail(&self, cx: u32) -> (res: (Stage, Command))
        ensures
            res == start(self@.len() == 0, cx),
    {
        begin(self.file_path.as_str(), cx)
    }
}

/// The UTF-16 form of a path without NUL meets the precondition of
/// `ThumbnailProvider::initialize` and decodes to that very path, so the
/// provider then holds exactly the path the shell named.
pub proof fn law_initialize_reads_back(path: Seq<char>)
    requires
        !path.contains('\0'),
    ensures
        !encode_utf16(path).contains(0u16),
        decode_utf16(encode_utf16(path)) == Some(path),
{
    lemma_encode_without_nul(path);
    law_decode_inverts_encode(path);
}

} // verus!
