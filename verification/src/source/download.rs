//! The progress of the download of an item.
use vstd::prelude::*;
use vstd::array::*;
use crate::string_map::StringMap;

verus! {

/// A download in progress: for each file, its size and the bytes remaining.
pub struct ItemDownload {
    token: String,
    item_id: u32,
    files: StringMap<[u128; 2]>,
}

impl ItemDownload {
    pub closed spec fn spec_token(&self) -> Seq<char> {
        self.token@
    }

    pub closed spec fn spec_item_id(&self) -> u32 {
        self.item_id
    }

    pub closed spec fn spec_files(&self) -> Map<Seq<char>, [u128; 2]> {
        self.files@
    }

    /// The download of `_item_id` for the holder of `_token`.
    pub fn new(_token: String, _item_id: u32, _files: StringMap<[u128; 2]>) -> (r: ItemDownload)
        ensures
            r.spec_token() == _token@,
            r.spec_item_id() == _item_id,
            r.spec_files() == _files@,
    {
        ItemDownload { token: _token, item_id: _item_id, files: _files }
    }

    /// Sets the bytes remaining of `file_name`; true when the file is part of
    /// the download, false (and nothing changed) otherwise.
    pub fn update_file_byte_remaining(&mut self, file_name: String, bytes_remaining: u128) -> (r:
        bool)
        ensures
            r == old(self).spec_files().dom().contains(file_name@),
            final(self).spec_token() == old(self).spec_token(),
            final(self).spec_item_id() == old(self).spec_item_id(),
            final(self).spec_files() == if r {
                old(self).spec_files().insert(
                    file_name@,
                    [old(self).spec_files()[file_name@][0], bytes_remaining],
                )
            } else {
                old(self).spec_files()
            },
    {
        match self.files.get(&file_name) {
            Some(bytes) => {
                let updated: [u128; 2] = [bytes[0], bytes_remaining];
                self.files.insert(file_name, updated);
                true
            },
            None => false,
        }
    }
}

} // verus!
