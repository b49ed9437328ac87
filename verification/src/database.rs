pub mod object_mapper;
pub mod rotation;
pub mod store;
pub mod storable;
