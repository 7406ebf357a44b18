//! The saves uploader: drains save files and their snapshot companions
//! through the priority-retry channel.
//!
//! A save file is uploaded without a content type — the server decides
//! by extension — while its screenshot companion carries an image
//! content type.  Post-upload behavior matches the screenshots uploader:
//! delete on success, retry with the file kept on failure.

use crate::channel::Action;
use crate::screenshots::{self, UploadRequest};
use crate::uploader::DigestCache;
use vstd::prelude::*;

verus! {

/// Events accepted by the saves uploader.
pub enum Event {
    /// Upload a save file to the given remote directory, then delete it.
    UploadSave(String, String),
    /// Upload the screenshot companion of a save.
    UploadScreenshot(String, String),
    IsOnline(bool),
    ForceSync,
    StartShutdown,
}

/// The saves uploader's state.
pub struct Saves {
    pub save_url: String,
    pub digest_cache: DigestCache,
    pub is_online: bool,
}

impl Saves {
    pub fn new(save_url: String, is_online: bool) -> (r: Saves)
        ensures
            r.save_url == save_url,
            r.digest_cache.slot is None,
            r.is_online == is_online,
    {
        Saves { save_url, digest_cache: DigestCache::new(), is_online }
    }

    /// Control events preempt buffered uploads.
    pub fn is_high_priority(&self, event: &Event) -> (r: bool)
        ensures
            r == match event {
                Event::StartShutdown => true,
                Event::IsOnline(_) => true,
                Event::ForceSync => true,
                _ => false,
            },
    {
        match event {
            Event::StartShutdown => true,
            Event::IsOnline(_) => true,
            Event::ForceSync => true,
            Event::UploadSave(_, _) => false,
            Event::UploadScreenshot(_, _) => false,
        }
    }

    /// Adopts an explicit online/offline report.
    pub fn handle_is_online(&mut self, online: bool) -> (r: Action)
        ensures
            final(self).is_online == online,
            final(self).save_url == old(self).save_url,
            final(self).digest_cache == old(self).digest_cache,
            r is Continue,
    {
        self.is_online = online;
        Action::Continue
    }

    /// A forced sync assumes the network is back and clears all backoff.
    pub fn handle_force_sync(&mut self) -> (r: Action)
        ensures
            final(self).is_online,
            final(self).save_url == old(self).save_url,
            final(self).digest_cache == old(self).digest_cache,
            r is ResetTimeout,
    {
        self.is_online = true;
        Action::ResetTimeout
    }

    /// Shutdown halts the loop.
    pub fn handle_start_shutdown(&self) -> (r: Action)
        ensures
            r is Halt,
    {
        Action::Halt
    }

    /// The upload an event asks for: a save goes without a content type
    /// so the server decides, a screenshot companion with the inferred
    /// image type.  Control events ask for none.
    pub fn upload_request(&self, event: &Event) -> (r: Option<UploadRequest>)
        ensures
            match event {
                Event::UploadSave(path, directory) => r matches Some(u) && u.base_url@
                    == self.save_url@ && u.path@ == path@ && u.directory@ == directory@
                    && u.content_type is None,
                Event::UploadScreenshot(path, directory) => r matches Some(u) && u.base_url@
                    == self.save_url@ && u.path@ == path@ && u.directory@ == directory@ && (
                u.content_type matches Some(c) && c@ == screenshots::spec_screenshot_content_type(
                    path@,
                )),
                _ => r is None,
            },
    {
        match event {
            Event::UploadSave(path, directory) => Some(
                UploadRequest {
                    base_url: self.save_url.clone(),
                    path: path.clone(),
                    directory: directory.clone(),
                    content_type: None,
                },
            ),
            Event::UploadScreenshot(path, directory) => Some(
                UploadRequest {
                    base_url: self.save_url.clone(),
                    path: path.clone(),
                    directory: directory.clone(),
                    content_type: Some(
                        screenshots::screenshot_content_type(path.as_str()).to_owned(),
                    ),
                },
            ),
            _ => None,
        }
    }
}

} // verus!
