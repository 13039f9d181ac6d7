use vstd::prelude::*;

verus! {

/// What is selected in the tree. A request at the root has no collection; a
/// request in a collection has both; a collection alone has no request.
#[derive(Clone, Copy, Debug)]
pub struct SelectedEntity {
    pub collection_idx: Option<usize>,
    pub request_idx: Option<usize>,
}

impl SelectedEntity {
    /// Nothing selected.
    pub fn new() -> (r: Self)
        ensures
            r.collection_idx is None,
            r.request_idx is None,
    {
        SelectedEntity { collection_idx: None, request_idx: None }
    }

    /// Selects a request, in a collection or at the root.
    pub fn select_request(&mut self, parent_collection_idx: Option<usize>, request_idx: usize)
        ensures
            final(self).request_idx == Some(request_idx),
            final(self).collection_idx == parent_collection_idx,
    {
        self.request_idx = Some(request_idx);
        self.collection_idx = parent_collection_idx;
    }

    /// Selects a collection; no request stays selected.
    pub fn select_collection(&mut self, idx: usize)
        ensures
            final(self).request_idx is None,
            final(self).collection_idx == Some(idx),
    {
        self.unselect_request();
        self.collection_idx = Some(idx);
    }

    /// Selects nothing.
    pub fn unselect_request(&mut self)
        ensures
            final(self).request_idx is None,
            final(self).collection_idx is None,
    {
        self.request_idx = None;
        self.collection_idx = None;
    }

    /// Lets go of the collection; a selected request stays.
    pub fn unselect_collection(&mut self)
        ensures
            final(self).request_idx == old(self).request_idx,
            final(self).collection_idx is None,
    {
        self.collection_idx = None;
    }

    /// True where anything is selected.
    pub open spec fn spec_is_selected(&self) -> bool {
        self.collection_idx is Some || self.request_idx is Some
    }

    /// True where anything is selected.
    #[verifier::when_used_as_spec(spec_is_selected)]
    pub fn is_selected(&self) -> (r: bool)
        ensures
            r == self.spec_is_selected(),
    {
        if self.collection_idx.is_none() && self.request_idx.is_none() {
            return false;
        }
        true
    }

    /// True where the collection at the index is selected, and no request
    /// in it.
    pub open spec fn spec_collection_is_selected(&self, idx: usize) -> bool {
        self.collection_idx == Some(idx) && self.request_idx is None
    }

    /// True where the collection at the index is selected, and no request
    /// in it.
    #[verifier::when_used_as_spec(spec_collection_is_selected)]
    pub fn collection_is_selected(&self, idx: usize) -> (r: bool)
        ensures
            r == self.spec_collection_is_selected(idx),
    {
        if let Some(collection_idx) = self.collection_idx {
            self.request_idx.is_none() && collection_idx == idx
        } else {
            false
        }
    }

    /// True where the request at the index, in the collection given or at
    /// the root, is selected.
    pub open spec fn spec_request_is_selected(
        &self,
        parent_collection_idx: Option<usize>,
        request_idx: usize,
    ) -> bool {
        self.collection_idx == parent_collection_idx && self.request_idx == Some(request_idx)
    }

    /// True where the request at the index, in the collection given or at
    /// the root, is selected.
    #[verifier::when_used_as_spec(spec_request_is_selected)]
    pub fn request_is_selected(&self, parent_collection_idx: Option<usize>, request_idx: usize) -> (r:
        bool)
        ensures
            r == self.spec_request_is_selected(parent_collection_idx, request_idx),
    {
        match parent_collection_idx {
            Some(val) => {
                match (self.collection_idx, self.request_idx) {
                    (Some(current_collection_idx), Some(current_request_idx)) => {
                        current_collection_idx == val && current_request_idx == request_idx
                    },
                    _ => false,
                }
            },
            None => {
                if self.collection_idx.is_some() {
                    return false;
                }
                if let Some(r_idx) = self.request_idx {
                    r_idx == request_idx
                } else {
                    false
                }
            },
        }
    }
}

} // verus!
