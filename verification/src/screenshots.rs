//! The screenshots uploader: drains screenshot upload jobs through the
//! priority-retry channel.
//!
//! Each job uploads one file to the screenshot service and then deletes
//! the local copy.  An upload failure retries the job with the file kept;
//! a delete failure is reported but does not retry — the upload is the
//! authoritative success.

use crate::channel::Action;
use crate::paths;
use crate::uploader::DigestCache;
use vstd::prelude::*;

verus! {

/// Events accepted by the screenshots uploader.
pub enum Event {
    /// Upload this file to the given remote directory, then delete it.
    UploadScreenshot(String, String),
    /// Upload a screenshot that has no play to attach to; it goes to the
    /// fixed extra bucket.
    UploadExtra(String),
    IsOnline(bool),
    ForceSync,
    StartShutdown,
}

/// One upload to perform, assembled for the driver.
pub struct UploadRequest {
    pub base_url: String,
    pub path: String,
    pub directory: String,
    pub content_type: Option<String>,
}

/// The screenshots uploader's state.
pub struct Screenshots {
    pub screenshot_url: String,
    /// Remote directory for screenshots without a play.
    pub extra_directory: String,
    pub digest_cache: DigestCache,
    pub is_online: bool,
}

/// The content type inferred from a screenshot's extension: JPEG for
/// `.jpg`, PNG for everything else.
pub open spec fn spec_screenshot_content_type(path: Seq<char>) -> Seq<char> {
    if paths::spec_last_extension(path) == Some("jpg"@) {
        "image/jpeg"@
    } else {
        "image/png"@
    }
}

/// The content type sent along with a screenshot.
pub fn screenshot_content_type(path: &str) -> (r: &str)
    ensures
        r@ == spec_screenshot_content_type(path@),
{
    match paths::last_extension(path) {
        Some(e) => {
            if paths::str_eq(e, "jpg") {
                "image/jpeg"
            } else {
                "image/png"
            }
        },
        None => "image/png",
    }
}

/// An upload that failed is retried; one that went through continues.
pub fn action_after_upload(upload_ok: bool) -> (r: Action)
    ensures
        upload_ok ==> r is Continue,
        !upload_ok ==> r is Retry,
{
    if upload_ok {
        Action::Continue
    } else {
        Action::Retry
    }
}

impl Screenshots {
    pub fn new(screenshot_url: String, extra_directory: String, is_online: bool) -> (r:
        Screenshots)
        ensures
            r.screenshot_url == screenshot_url,
            r.extra_directory == extra_directory,
            r.digest_cache.slot is None,
            r.is_online == is_online,
    {
        Screenshots {
            screenshot_url,
            extra_directory,
            digest_cache: DigestCache::new(),
            is_online,
        }
    }

    /// Control events preempt buffered uploads.
    pub fn is_high_priority(&self, event: &Event) -> (r: bool)
        ensures
            r == match event {
                Event::StartShutdown => true,
                Event::IsOnline(_) => true,
                Event::ForceSync => true,
                _ => false,
            },
    {
        match event {
            Event::StartShutdown => true,
            Event::IsOnline(_) => true,
            Event::ForceSync => true,
            Event::UploadScreenshot(_, _) => false,
            Event::UploadExtra(_) => false,
        }
    }

    /// Adopts an explicit online/offline report.
    pub fn handle_is_online(&mut self, online: bool) -> (r: Action)
        ensures
            final(self).is_online == online,
            final(self).screenshot_url == old(self).screenshot_url,
            final(self).extra_directory == old(self).extra_directory,
            final(self).digest_cache == old(self).digest_cache,
            r is Continue,
    {
        self.is_online = online;
        Action::Continue
    }

    /// A forced sync assumes the network is back and clears all backoff.
    pub fn handle_force_sync(&mut self) -> (r: Action)
        ensures
            final(self).is_online,
            final(self).screenshot_url == old(self).screenshot_url,
            final(self).extra_directory == old(self).extra_directory,
            final(self).digest_cache == old(self).digest_cache,
            r is ResetTimeout,
    {
        self.is_online = true;
        Action::ResetTimeout
    }

    /// Shutdown halts the loop.
    pub fn handle_start_shutdown(&self) -> (r: Action)
        ensures
            r is Halt,
    {
        Action::Halt
    }

    /// The upload an event asks for: a screenshot goes to its own remote
    /// directory, an extra to the fixed extra bucket; both carry the
    /// inferred image content type.  Control events ask for none.
    pub fn upload_request(&self, event: &Event) -> (r: Option<UploadRequest>)
        ensures
            match event {
                Event::UploadScreenshot(path, directory) => r matches Some(u)
                    && u.base_url@ == self.screenshot_url@ && u.path@ == path@ && u.directory@
                    == directory@ && (u.content_type matches Some(c) && c@
                    == spec_screenshot_content_type(path@)),
                Event::UploadExtra(path) => r matches Some(u) && u.base_url@
                    == self.screenshot_url@ && u.path@ == path@ && u.directory@
                    == self.extra_directory@ && (u.content_type matches Some(c) && c@
                    == spec_screenshot_content_type(path@)),
                _ => r is None,
            },
    {
        match event {
            Event::UploadScreenshot(path, directory) => Some(
                UploadRequest {
                    base_url: self.screenshot_url.clone(),
                    path: path.clone(),
                    directory: directory.clone(),
                    content_type: Some(screenshot_content_type(path.as_str()).to_owned()),
                },
            ),
            Event::UploadExtra(path) => Some(
                UploadRequest {
                    base_url: self.screenshot_url.clone(),
                    path: path.clone(),
                    directory: self.extra_directory.clone(),
                    content_type: Some(screenshot_content_type(path.as_str()).to_owned()),
                },
            ),
            _ => None,
        }
    }
}

} // verus!
