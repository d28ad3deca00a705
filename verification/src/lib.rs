//! Well-formedness obligations for type declarations and trait impls.
//!
//! A declaration is legal when a goal built from it has a unique solution.
//! This crate builds that goal: it finds the types whose well-formedness
//! has to be shown ([`collect`]), moves terms across binders ([`fold`]),
//! adds the rules of the built-in traits ([`builtin`]), assembles the
//! obligations of declarations, impl headers and associated-type values
//! ([`obligation`], [`assoc`]), and turns a solver's answer into a verdict
//! ([`wf`]). Terms, goals and declarations are plain data ([`ir`], [`goal`],
//! [`bound`], [`decl`]); the arithmetic of de Bruijn indices is `chalk_ir`'s
//! ([`index`]).
//!
//! What holds of every input is proved in [`laws`] (the obligations),
//! [`shift_laws`] (moving terms across binders), [`scope_laws`] (which
//! binders a term may name afterwards) and [`closed_laws`] (the goals of
//! well-scoped declarations have no free variable).
pub mod assoc;
pub mod bound;
pub mod builtin;
pub mod closed_laws;
pub mod collect;
pub mod decl;
pub mod fold;
pub mod goal;
pub mod index;
pub mod ir;
pub mod laws;
pub mod obligation;
pub mod scope;
pub mod scope_check;
pub mod scope_laws;
pub mod shift_laws;
pub mod text;
pub mod violation;
pub mod wf;
