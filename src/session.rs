//! Scoped access to a font's glyphs while a translation blob may be
//! reloaded in the background.
//!
//! A session takes the blob's read lock once, without waiting, and keeps
//! it until the session is dropped; every glyph looked up through the
//! session sees the same blob. When the lock is taken by a writer, the
//! session sees no blob, and characters outside ASCII fall back to the
//! nonprintable glyph.
use vstd::prelude::*;
use crate::font::{FontInfo, GlyphData, Translations};

verus! {

#[verifier::external_type_specification]
#[verifier::external_body]
#[verifier::reject_recursive_types(T)]
#[verifier::reject_recursive_types(R)]
pub struct ExRwLock<T: ?Sized, R>(spin::rwlock::RwLock<T, R>);

#[verifier::external_type_specification]
#[verifier::external_body]
#[verifier::reject_recursive_types(T)]
pub struct ExRwLockReadGuard<'a, T: ?Sized>(spin::rwlock::RwLockReadGuard<'a, T>);

#[verifier::external_type_specification]
#[verifier::external_body]
#[verifier::reject_recursive_types(T)]
#[verifier::reject_recursive_types(R)]
pub struct ExRwLockWriteGuard<'a, T: 'a + ?Sized, R>(spin::rwlock::RwLockWriteGuard<'a, T, R>);

#[verifier::external_type_specification]
#[verifier::external_body]
pub struct ExSpin(spin::relax::Spin);

/// Relies on spin's `RwLock::new`: a lock around `blob`, taken by nobody.
#[verifier::external_body]
fn new_blob_lock(blob: Option<Translations>) -> spin::rwlock::RwLock<Option<Translations>> {
    spin::rwlock::RwLock::new(blob)
}

/// Relies on spin's `RwLock::try_read`: a read guard, or `None` when a
/// writer holds the lock. It never waits.
#[verifier::external_body]
fn try_read_blob<'a>(
    lock: &'a spin::rwlock::RwLock<Option<Translations>>,
) -> Option<spin::rwlock::RwLockReadGuard<'a, Option<Translations>>> {
    lock.try_read()
}

/// Relies on the `Deref` of spin's `RwLockReadGuard`: the value the guard
/// protects.
#[verifier::external_body]
fn read_guarded<'b>(guard: &'b spin::rwlock::RwLockReadGuard<'_, Option<Translations>>) -> &'b Option<Translations> {
    &**guard
}

/// Relies on spin's `RwLock::try_write`: a write guard, or `None` when a
/// reader or a writer holds the lock. It never waits.
#[verifier::external_body]
fn try_write_blob<'a>(
    lock: &'a spin::rwlock::RwLock<Option<Translations>>,
) -> Option<spin::rwlock::RwLockWriteGuard<'a, Option<Translations>>> {
    lock.try_write()
}

/// Relies on the `DerefMut` of spin's `RwLockWriteGuard`: replaces the
/// value the guard protects with `blob`.
#[verifier::external_body]
fn write_guarded(guard: &mut spin::rwlock::RwLockWriteGuard<'_, Option<Translations>>, blob: Option<Translations>) {
    **guard = blob;
}

/// The translation blob of the running system, behind its lock.
pub struct TranslationsLock {
    lock: spin::rwlock::RwLock<Option<Translations>>,
}

impl TranslationsLock {
    pub fn new(blob: Option<Translations>) -> (r: TranslationsLock) {
        TranslationsLock { lock: new_blob_lock(blob) }
    }

    /// Installs a new blob (or none) unless a session is reading the old
    /// one; returns whether it did.
    pub fn try_replace(&self, blob: Option<Translations>) -> (r: bool) {
        match try_write_blob(&self.lock) {
            Some(mut guard) => {
                write_guarded(&mut guard, blob);
                true
            },
            None => false,
        }
    }
}

/// One measurement's access to a font's glyphs. It holds the blob's read
/// lock, when it could take it, until it is dropped.
pub struct GlyphSession<'a> {
    font: &'a FontInfo,
    guard: Option<spin::rwlock::RwLockReadGuard<'a, Option<Translations>>>,
}

impl<'a> GlyphSession<'a> {
    pub closed spec fn font(&self) -> &'a FontInfo {
        self.font
    }

    /// Opens a session on `font`, taking the blob's read lock if it is free.
    pub fn open(font: &'a FontInfo, translations: &'a TranslationsLock) -> (r: GlyphSession<'a>)
        ensures
            r.font() == font,
    {
        GlyphSession { font, guard: try_read_blob(&translations.lock) }
    }

    /// The blob this session sees: none when the lock was taken or no blob
    /// is loaded.
    pub fn translations(&self) -> Option<&Translations> {
        match &self.guard {
            Some(guard) => match read_guarded(guard) {
                Some(blob) => Some(blob),
                None => None,
            },
            None => None,
        }
    }

    /// The glyphs of the session's font as this session sees them.
    pub fn glyph_data(&self) -> (r: GlyphData<'_>)
        ensures
            r.font == self.font(),
    {
        GlyphData::new(self.font, self.translations())
    }
}

} // verus!
