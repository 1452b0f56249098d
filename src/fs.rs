//! The filesystem front end: the current directory, the request id kept
//! between calls, and the handles that remote directories are opened as.
use vstd::prelude::*;

verus! {

/// Whether a path is absolute, that is starts at the root.
pub open spec fn is_absolute(p: Seq<char>) -> bool {
    p.len() > 0 && p[0] == '/'
}

/// `p` read against the directory `cwd`: an absolute path stands as it is,
/// a relative one is appended to `cwd` with one separator between them.
pub open spec fn join_path(cwd: Seq<char>, p: Seq<char>) -> Seq<char> {
    if is_absolute(p) || cwd.len() == 0 {
        p
    } else if cwd.last() == '/' {
        cwd + p
    } else {
        cwd + seq!['/'] + p
    }
}

/// What the cache holds after one id is taken out of `cache`, and the id
/// that the request is handed, if it was cached.
pub open spec fn after_take<I>(cache: Option<I>) -> (Option<I>, Option<I>) {
    (None, cache)
}

/// A request id kept between calls, for requests that are sent and awaited
/// one after another. Taking it empties the cache, so that a request sent
/// while another is still in flight gets a fresh id from the pool.
#[derive(Debug)]
pub struct IdCache<I> {
    pub id: Option<I>,
}

impl<I> IdCache<I> {
    /// An empty cache.
    pub fn new() -> (r: Self)
        ensures
            r.id is None,
    {
        IdCache { id: None }
    }

    /// Takes the cached id out, if there is one.
    pub fn take_id(&mut self) -> (r: Option<I>)
        ensures
            (final(self).id, r) == after_take(old(self).id),
    {
        self.id.take()
    }

    /// Keeps `id`, whose reply has been consumed, for the next request.
    pub fn cache_id(&mut self, id: I)
        ensures
            final(self).id == Some(id),
    {
        self.id = Some(id);
    }
}

/// The cache holds no id that an outstanding request still uses.
pub open spec fn cache_apart<I>(cache: Option<I>, outstanding: Set<I>) -> bool {
    cache matches Some(c) ==> !outstanding.contains(c)
}

/// The id that a request is sent with: the cached one if there is one,
/// else `fresh`, a new id from the pool.
pub open spec fn id_for_request<I>(cache: Option<I>, fresh: I) -> I {
    match after_take(cache).1 {
        Some(id) => id,
        None => fresh,
    }
}

/// Ids are never shared by two outstanding requests. Given a pool that
/// hands out an id that no outstanding request uses, the id a new request
/// is sent with differs from every outstanding one, and the cache stays
/// apart from the requests now outstanding; when a reply has been consumed
/// and its id goes back to the cache, the cache is apart from the requests
/// still outstanding.
pub proof fn lemma_outstanding_ids_differ<I>(cache: Option<I>, outstanding: Set<I>, fresh: I, done: I)
    requires
        cache_apart(cache, outstanding),
        !outstanding.contains(fresh),
    ensures
        !outstanding.contains(id_for_request(cache, fresh)),
        cache_apart(
            after_take(cache).0,
            outstanding.insert(id_for_request(cache, fresh)),
        ),
        cache_apart(Some(done), outstanding.remove(done)),
{
}

/// A struct used to perform operations on the remote filesystem through
/// the write end `W` of a session, whose requests carry ids of type `I`.
#[derive(Debug)]
pub struct Fs<W, I> {
    pub write_end: W,
    pub ids: IdCache<I>,
    pub cwd: String,
}

impl<W, I> Fs<W, I> {
    /// A front end on `write_end` with `cwd` as its current directory.
    pub fn new(write_end: W, cwd: String) -> (r: Self)
        ensures
            r.write_end == write_end,
            r.ids.id is None,
            r.cwd@ == cwd@,
    {
        Fs { write_end, ids: IdCache::new(), cwd }
    }

    /// Return current working dir.
    pub fn cwd(&self) -> (r: &str)
        ensures
            r@ == self.cwd@,
    {
        self.cwd.as_str()
    }

    /// Set current working dir.
    pub fn set_cwd(&mut self, cwd: String)
        ensures
            final(self).cwd@ == cwd@,
            final(self).write_end == old(self).write_end,
            final(self).ids == old(self).ids,
    {
        self.cwd = cwd;
    }

    /// The path that a request for `path` names: `path` itself when it is
    /// absolute, else `path` under the current directory.
    pub fn concat_path_if_needed(&self, path: &str) -> (r: String)
        ensures
            r@ == join_path(self.cwd@, path@),
    {
        let len = path.unicode_len();
        if len > 0 && path.get_char(0) == '/' {
            return path.to_string();
        }
        let clen = self.cwd.as_str().unicode_len();
        if clen == 0 {
            return path.to_string();
        }
        let mut joined = self.cwd.clone();
        if self.cwd.as_str().get_char(clen - 1) != '/' {
            joined.append("/");
        }
        joined.append(path);
        proof {
            reveal_strlit("/");
            assert(seq!['/'] =~= "/"@);
        }
        joined
    }
}

/// A handle on an open remote file or directory, with the write end that
/// its requests go through. Closing it gives both up.
#[derive(Debug)]
pub struct OwnedHandle<W> {
    pub write_end: W,
    pub handle: Vec<u8>,
}

impl<W> OwnedHandle<W> {
    /// Owns the remote resource named by `handle`.
    pub fn new(write_end: W, handle: Vec<u8>) -> (r: Self)
        ensures
            r.write_end == write_end,
            r.handle@ == handle@,
    {
        OwnedHandle { write_end, handle }
    }

    /// The handle bytes that each request on the resource carries.
    pub fn handle(&self) -> (r: &[u8])
        ensures
            r@ == self.handle@,
    {
        self.handle.as_slice()
    }

    /// Gives the handle up, with the write end that its close request is
    /// to go through. The handle is consumed, so it cannot be closed twice.
    pub fn close(self) -> (r: (W, Vec<u8>))
        ensures
            r.0 == self.write_end,
            r.1@ == self.handle@,
    {
        (self.write_end, self.handle)
    }
}

/// Remote directory.
#[derive(Debug)]
pub struct Dir<W>(pub OwnedHandle<W>);

impl<W> Dir<W> {
    /// The directory opened as `handle`.
    pub fn new(write_end: W, handle: Vec<u8>) -> (r: Self)
        ensures
            r.0.write_end == write_end,
            r.0.handle@ == handle@,
    {
        Dir(OwnedHandle::new(write_end, handle))
    }

    /// Close dir: gives the handle up for its close request.
    pub fn close(self) -> (r: (W, Vec<u8>))
        ensures
            r.0 == self.0.write_end,
            r.1@ == self.0.handle@,
    {
        self.0.close()
    }
}

} // verus!
