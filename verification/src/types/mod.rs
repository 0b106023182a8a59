use vstd::prelude::*;

pub mod auth_response;

verus! {

/// The canister's configuration: the threshold ECDSA key and the OAuth
/// client credentials of both providers.
#[derive(Debug, Clone)]
pub struct Metadata {
    pub key_name: String,
    pub google_oauth_client_id: String,
    pub google_oauth_client_secret: String,
    pub google_oauth_redirect_url: String,
    pub github_oauth_client_id: String,
    pub github_oauth_client_secret: String,
}

impl Default for Metadata {
    /// The empty configuration: every field is the empty text.
    fn default() -> (res: Metadata)
        ensures
            res.key_name@ == Seq::<char>::empty(),
            res.google_oauth_client_id@ == Seq::<char>::empty(),
            res.google_oauth_client_secret@ == Seq::<char>::empty(),
            res.google_oauth_redirect_url@ == Seq::<char>::empty(),
            res.github_oauth_client_id@ == Seq::<char>::empty(),
            res.github_oauth_client_secret@ == Seq::<char>::empty(),
    {
        Metadata {
            key_name: String::new(),
            google_oauth_client_id: String::new(),
            google_oauth_client_secret: String::new(),
            google_oauth_redirect_url: String::new(),
            github_oauth_client_id: String::new(),
            github_oauth_client_secret: String::new(),
        }
    }
}

/// A partial configuration: every field that is `Some` replaces the current one.
#[derive(Debug, Clone)]
pub struct UpdateMetadata {
    pub key_name: Option<String>,
    pub google_oauth_client_id: Option<String>,
    pub google_oauth_client_secret: Option<String>,
    pub google_oauth_redirect_url: Option<String>,
    pub github_oauth_client_id: Option<String>,
    pub github_oauth_client_secret: Option<String>,
}

/// `current`, unless `replacement` holds a value.
pub open spec fn overridden(current: String, replacement: Option<String>) -> String {
    match replacement {
        Some(v) => v,
        None => current,
    }
}

/// `later` where it holds a value, `earlier` elsewhere.
pub open spec fn latest(earlier: Option<String>, later: Option<String>) -> Option<String> {
    match later {
        Some(v) => Some(v),
        None => earlier,
    }
}

impl UpdateMetadata {
    /// The update that changes nothing.
    pub open spec fn empty() -> UpdateMetadata {
        UpdateMetadata {
            key_name: None,
            google_oauth_client_id: None,
            google_oauth_client_secret: None,
            google_oauth_redirect_url: None,
            github_oauth_client_id: None,
            github_oauth_client_secret: None,
        }
    }

    /// One update with the effect of `self` followed by `later`.
    pub open spec fn followed_by(self, later: UpdateMetadata) -> UpdateMetadata {
        UpdateMetadata {
            key_name: latest(self.key_name, later.key_name),
            google_oauth_client_id: latest(self.google_oauth_client_id, later.google_oauth_client_id),
            google_oauth_client_secret: latest(
                self.google_oauth_client_secret,
                later.google_oauth_client_secret,
            ),
            google_oauth_redirect_url: latest(
                self.google_oauth_redirect_url,
                later.google_oauth_redirect_url,
            ),
            github_oauth_client_id: latest(self.github_oauth_client_id, later.github_oauth_client_id),
            github_oauth_client_secret: latest(
                self.github_oauth_client_secret,
                later.github_oauth_client_secret,
            ),
        }
    }
}

impl Metadata {
    /// The configuration after `update`: each field is replaced exactly when
    /// the update holds a value for it.
    pub open spec fn updated_with(self, update: UpdateMetadata) -> Metadata {
        Metadata {
            key_name: overridden(self.key_name, update.key_name),
            google_oauth_client_id: overridden(self.google_oauth_client_id, update.google_oauth_client_id),
            google_oauth_client_secret: overridden(
                self.google_oauth_client_secret,
                update.google_oauth_client_secret,
            ),
            google_oauth_redirect_url: overridden(
                self.google_oauth_redirect_url,
                update.google_oauth_redirect_url,
            ),
            github_oauth_client_id: overridden(self.github_oauth_client_id, update.github_oauth_client_id),
            github_oauth_client_secret: overridden(
                self.github_oauth_client_secret,
                update.github_oauth_client_secret,
            ),
        }
    }

    /// Applies a partial configuration.
    pub fn update(&mut self, update: UpdateMetadata)
        ensures
            *final(self) == old(self).updated_with(update),
    {
        if let Some(key_name) = update.key_name {
            self.key_name = key_name;
        }
        if let Some(google_oauth_client_id) = update.google_oauth_client_id {
            self.google_oauth_client_id = google_oauth_client_id;
        }
        if let Some(google_oauth_client_secret) = update.google_oauth_client_secret {
            self.google_oauth_client_secret = google_oauth_client_secret;
        }
        if let Some(google_oauth_redirect_url) = update.google_oauth_redirect_url {
            self.google_oauth_redirect_url = google_oauth_redirect_url;
        }
        if let Some(github_oauth_client_id) = update.github_oauth_client_id {
            self.github_oauth_client_id = github_oauth_client_id;
        }
        if let Some(github_oauth_client_secret) = update.github_oauth_client_secret {
            self.github_oauth_client_secret = github_oauth_client_secret;
        }
    }
}

/// An update that holds no value leaves the configuration as it was.
pub proof fn lemma_empty_update_is_identity(metadata: Metadata)
    ensures
        metadata.updated_with(UpdateMetadata::empty()) == metadata,
{
}

/// Applying the same update twice has the effect of applying it once.
pub proof fn lemma_update_idempotent(metadata: Metadata, update: UpdateMetadata)
    ensures
        metadata.updated_with(update).updated_with(update) == metadata.updated_with(update),
{
}

/// Two updates in a row have the effect of one update in which the later
/// value of each field wins.
pub proof fn lemma_updates_compose(metadata: Metadata, first: UpdateMetadata, second: UpdateMetadata)
    ensures
        metadata.updated_with(first).updated_with(second) == metadata.updated_with(first.followed_by(second)),
{
}

/// A field the update holds takes the update's value, whatever the
/// configuration held before; a field the update leaves out keeps its value.
pub proof fn lemma_update_overrides_fields(a: Metadata, update: UpdateMetadata)
    ensures
        update.key_name is Some ==> a.updated_with(update).key_name == update.key_name->0,
        update.key_name is None ==> a.updated_with(update).key_name == a.key_name,
        update.google_oauth_client_id is Some ==> a.updated_with(update).google_oauth_client_id == update.google_oauth_client_id->0,
        update.google_oauth_client_id is None ==> a.updated_with(update).google_oauth_client_id == a.google_oauth_client_id,
        update.google_oauth_client_secret is Some ==> a.updated_with(update).google_oauth_client_secret == update.google_oauth_client_secret->0,
        update.google_oauth_client_secret is None ==> a.updated_with(update).google_oauth_client_secret == a.google_oauth_client_secret,
        update.google_oauth_redirect_url is Some ==> a.updated_with(update).google_oauth_redirect_url == update.google_oauth_redirect_url->0,
        update.google_oauth_redirect_url is None ==> a.updated_with(update).google_oauth_redirect_url == a.google_oauth_redirect_url,
        update.github_oauth_client_id is Some ==> a.updated_with(update).github_oauth_client_id == update.github_oauth_client_id->0,
        update.github_oauth_client_id is None ==> a.updated_with(update).github_oauth_client_id == a.github_oauth_client_id,
        update.github_oauth_client_secret is Some ==> a.updated_with(update).github_oauth_client_secret == update.github_oauth_client_secret->0,
        update.github_oauth_client_secret is None ==> a.updated_with(update).github_oauth_client_secret == a.github_oauth_client_secret,
{
}

} // verus!
