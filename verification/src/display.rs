use vstd::prelude::*;

use crate::event::FloatBits;

verus! {

/// The files of the last drop: the path and the contents of each, at the same place in both lists.
pub struct DroppedFiles {
    pub paths: Vec<String>,
    pub bytes: Vec<Vec<u8>>,
}

/// The files of the last drop, as sequences.
#[verifier::ext_equal]
pub struct DroppedFilesView {
    pub paths: Seq<Seq<char>>,
    pub bytes: Seq<Seq<u8>>,
}

impl View for DroppedFiles {
    type V = DroppedFilesView;

    open spec fn view(&self) -> DroppedFilesView {
        DroppedFilesView {
            paths: self.paths@.map_values(|path: String| path@),
            bytes: self.bytes@.map_values(|bytes: Vec<u8>| bytes@),
        }
    }
}

impl DroppedFilesView {
    /// No file at all.
    pub open spec fn none() -> Self {
        DroppedFilesView { paths: Seq::empty(), bytes: Seq::empty() }
    }

    /// One more file, behind the others.
    pub open spec fn with(self, path: Seq<char>, bytes: Seq<u8>) -> Self {
        DroppedFilesView { paths: self.paths.push(path), bytes: self.bytes.push(bytes) }
    }

    /// Every path has its contents.
    pub open spec fn wf(self) -> bool {
        self.paths.len() == self.bytes.len()
    }
}

impl Default for DroppedFiles {
    fn default() -> (files: Self)
        ensures
            files@ == DroppedFilesView::none(),
    {
        let files = DroppedFiles { paths: Vec::new(), bytes: Vec::new() };
        assert(files@ =~= DroppedFilesView::none());
        files
    }
}

/// What is known of the canvas that the application draws on.
pub struct DisplayData {
    pub screen_width: i32,
    pub screen_height: i32,
    pub dpi_scale: FloatBits,
    pub blocking_event_loop: bool,
    pub dropped_files: DroppedFiles,
}

/// What is known of the canvas, with the dropped files as sequences.
#[verifier::ext_equal]
pub struct DisplayView {
    pub screen_width: i32,
    pub screen_height: i32,
    pub dpi_scale: FloatBits,
    pub blocking_event_loop: bool,
    pub dropped_files: DroppedFilesView,
}

impl View for DisplayData {
    type V = DisplayView;

    open spec fn view(&self) -> DisplayView {
        DisplayView {
            screen_width: self.screen_width,
            screen_height: self.screen_height,
            dpi_scale: self.dpi_scale,
            blocking_event_loop: self.blocking_event_loop,
            dropped_files: self.dropped_files@,
        }
    }
}

impl DisplayData {
    /// The canvas has another size.
    pub fn set_size(&mut self, width: i32, height: i32)
        ensures
            final(self)@ == (DisplayView {
                screen_width: width,
                screen_height: height,
                ..old(self)@
            }),
    {
        self.screen_width = width;
        self.screen_height = height;
    }

    /// Forget the files of the last drop.
    pub fn clear_dropped_files(&mut self)
        ensures
            final(self)@ == (DisplayView { dropped_files: DroppedFilesView::none(), ..old(self)@ }),
    {
        self.dropped_files = DroppedFiles::default();
    }

    /// Take up one more dropped file.
    pub fn add_dropped_file(&mut self, path: String, bytes: Vec<u8>)
        ensures
            final(self)@ == (DisplayView {
                dropped_files: old(self)@.dropped_files.with(path@, bytes@),
                ..old(self)@
            }),
    {
        self.dropped_files.paths.push(path);
        self.dropped_files.bytes.push(bytes);
        assert(self@ =~= (DisplayView {
            dropped_files: old(self)@.dropped_files.with(path@, bytes@),
            ..old(self)@
        }));
    }
}

} // verus!
