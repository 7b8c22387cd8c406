//! Widget state of the fetch popup.
//!
//! Shows a gauge while a fetch runs.  Credentials, when the remote needs
//! them, are either complete and used at once or asked from the user first;
//! a finished fetch asks for a fast-forward merge of the fetched branch, or
//! reports the failure.

use vstd::prelude::*;

use vstd::string::StringExecFns;

use crate::notify::AsyncNotification;
use crate::push::AsyncFetch;
use crate::push::BasicAuthCredential;
use crate::push::FetchRequest;
use crate::push::FetchRelayState;
use crate::push::PushProgress;
use crate::queue::InternalEvent;
use crate::queue::Queue;

verus! {

/// The fetch popup.
pub struct FetchComponent {
    /// whether the popup is shown
    pub visible: bool,
    /// the fetch slot
    pub git_fetch: AsyncFetch,
    /// the progress the gauge last rendered
    pub progress: Option<PushProgress>,
    /// whether a fetch is believed to run
    pub pending: bool,
    /// the branch being fetched into
    pub branch: String,
    /// events for the application loop
    pub queue: Queue,
    /// the credential being typed in, when asked for
    pub input_cred: BasicAuthCredential,
    /// whether the credential prompt is shown
    pub input_cred_visible: bool,
    /// whether a completed fetch asks for a fast-forward merge
    pub merge_requested: bool,
}

impl FetchComponent {
    /// Creates a hidden fetch popup.
    pub fn new(sender: crossbeam_channel::Sender<AsyncNotification>) -> (r: Self)
        ensures
            !r.visible,
            !r.pending,
            r.branch@ == Seq::<char>::empty(),
            r.git_fetch@ == FetchRelayState::init(),
            r.progress is None,
            r.queue@ == Seq::<crate::queue::InternalEvent>::empty(),
            r.input_cred.username is None,
            r.input_cred.password is None,
            !r.input_cred_visible,
            !r.merge_requested,
    {
        FetchComponent {
            visible: false,
            git_fetch: AsyncFetch::new(sender),
            progress: None,
            pending: false,
            branch: String::new(),
            queue: Queue::new(),
            input_cred: BasicAuthCredential::new(None, None),
            input_cred_visible: false,
            merge_requested: false,
        }
    }

    /// Starts a fetch of `branch` from `remote`.  When the remote needs a
    /// credential, a complete stored one is used at once and anything else
    /// opens the credential prompt; without that need the fetch goes out
    /// anonymously.
    pub fn fetch(
        &mut self,
        branch: String,
        remote: String,
        needs_credential: bool,
        stored: Option<BasicAuthCredential>,
    )
        ensures
            final(self).visible,
            final(self).branch == branch,
            !needs_credential ==> !final(self).input_cred_visible,
            needs_credential && (stored is Some && stored->0.username is Some
                && stored->0.password is Some) ==> !final(self).input_cred_visible,
            needs_credential && !(stored is Some && stored->0.username is Some
                && stored->0.password is Some) ==> {
                &&& final(self).input_cred_visible
                &&& final(self).git_fetch == old(self).git_fetch
            },
    {
        self.branch = branch;
        self.show();
        self.input_cred_visible = false;
        if needs_credential {
            let cred = match stored {
                Some(c) => c,
                None => BasicAuthCredential::new(None, None),
            };
            if cred.is_complete() {
                self.fetch_from_remote(remote, Some(cred));
            } else {
                self.input_cred = cred;
                self.input_cred_visible = true;
            }
        } else {
            self.fetch_from_remote(remote, None);
        }
    }

    /// Hands the request to the fetch slot; rejected while one is pending.
    pub fn fetch_from_remote(&mut self, remote: String, cred: Option<BasicAuthCredential>) -> (r:
        bool)
        ensures
            r == (old(self).git_fetch@.request is None),
            final(self).pending,
            final(self).progress is None,
            final(self).branch == old(self).branch,
            final(self).visible == old(self).visible,
            final(self).queue == old(self).queue,
            final(self).input_cred == old(self).input_cred,
            final(self).input_cred_visible == old(self).input_cred_visible,
            final(self).merge_requested == old(self).merge_requested,
            !r ==> final(self).git_fetch == old(self).git_fetch,
            r ==> {
                &&& final(self).git_fetch@.request is Some
                &&& final(self).git_fetch@.request->0.remote == remote
                &&& final(self).git_fetch@.request->0.branch@ == old(self).branch@
                &&& final(self).git_fetch@.request->0.basic_credential == cred
                &&& final(self).git_fetch@.progress is None
                &&& !final(self).git_fetch@.relay_done
                &&& final(self).git_fetch@.last_result == old(self).git_fetch@.last_result
            },
    {
        self.pending = true;
        self.progress = None;
        let request = FetchRequest {
            remote,
            branch: self.branch.clone(),
            basic_credential: cred,
        };
        self.git_fetch.request(request)
    }

    /// The notification step: a fetch notification makes the shown popup
    /// re-query the fetch slot.
    pub fn update_git(&mut self, ev: AsyncNotification)
        ensures
            !(old(self).visible && ev == AsyncNotification::Fetch) ==> *final(self) == *old(self),
    {
        if self.visible {
            if ev == AsyncNotification::Fetch {
                self.update();
            }
        }
    }

    /// Re-queries the fetch slot: while it still runs only the pending flag
    /// refreshes; once it finished, a success asks for a fast-forward merge
    /// of the fetched branch, a failure is reported through the popup
    /// queue, and the popup closes.
    pub fn update(&mut self)
        ensures
            old(self).git_fetch@.request is Some ==> final(self).pending,
            old(self).git_fetch@.request is None ==> {
                &&& !final(self).pending
                &&& !final(self).visible
                &&& old(self).git_fetch@.last_result is Some
                    && (old(self).git_fetch@.last_result->0).1@ == Seq::<char>::empty()
                    ==> final(self).merge_requested
            },
            final(self).git_fetch == old(self).git_fetch,
            final(self).branch == old(self).branch,
    {
        self.pending = self.git_fetch.is_pending();
        if !self.pending {
            match self.git_fetch.last_result() {
                Some((_bytes, err)) => {
                    if err.as_str().is_empty() {
                        self.merge_requested = true;
                    } else {
                        let mut msg = "fetch failed:\n".to_owned();
                        msg.append(err.as_str());
                        self.queue.push(InternalEvent::ShowErrorMsg(msg));
                    }
                },
                None => {},
            }
            self.close();
        }
    }

    /// What the gauge shows: the stage label and percentage of the latest
    /// progress, or an idle label before any progress arrived.
    pub fn get_progress(&self) -> (r: (String, u8))
        ensures
            self.progress is None ==> r.0@ == "no progress"@ && r.1 == 0,
            self.progress is Some ==> r.0@ == "fetching"@ && r.1 == self.progress->0.progress,
    {
        match &self.progress {
            Some(progress) => ("fetching".to_owned(), progress.progress),
            None => ("no progress".to_owned(), 0),
        }
    }

    /// True iff the popup is shown.
    pub fn is_visible(&self) -> (r: bool)
        ensures
            r == self.visible,
    {
        self.visible
    }

    /// Closes the popup.
    pub fn close(&mut self)
        ensures
            *final(self) == (FetchComponent { visible: false, ..*old(self) }),
    {
        self.visible = false;
    }

    /// Shows the popup.
    pub fn show(&mut self)
        ensures
            *final(self) == (FetchComponent { visible: true, ..*old(self) }),
    {
        self.visible = true;
    }
}

} // verus!
