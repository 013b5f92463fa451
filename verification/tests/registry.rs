use after_effects::error::Error;
use after_effects::params::ParameterRegistry;
use after_effects::plugin::{visible_params, ParamDef, Parameters};

#[test]
fn indices_are_given_out_in_order_from_zero() {
    let mut registry = ParameterRegistry::new();
    assert!(!registry.is_frozen());
    assert_eq!(registry.num_params(), 0);
    assert_eq!(registry.declare(40), Ok(0));
    assert_eq!(registry.declare(7), Ok(1));
    assert_eq!(registry.declare(u64::MAX), Ok(2));
    assert_eq!(registry.num_params(), 3);
}

#[test]
fn a_known_identifier_is_refused() {
    let mut registry = ParameterRegistry::new();
    assert_eq!(registry.declare(5), Ok(0));
    assert_eq!(registry.declare(6), Ok(1));
    assert_eq!(registry.declare(5), Err(Error::DuplicateParameter));
    assert_eq!(registry.num_params(), 2);
    assert_eq!(registry.declare(8), Ok(2));
}

#[test]
fn lookups_are_inverse_to_each_other() {
    let mut registry = ParameterRegistry::new();
    let ids = [11u64, 3, 99, 0, 42];
    for (i, id) in ids.iter().enumerate() {
        assert_eq!(registry.declare(*id), Ok(i));
    }
    for (i, id) in ids.iter().enumerate() {
        assert_eq!(registry.resolve_index(i), Ok(*id));
        assert_eq!(registry.resolve_id(*id), Ok(i));
        assert_eq!(registry.resolve_id(registry.resolve_index(i).unwrap()), Ok(i));
    }
}

#[test]
fn what_was_not_declared_is_an_invalid_index() {
    let mut registry = ParameterRegistry::new();
    assert_eq!(registry.resolve_index(0), Err(Error::InvalidIndex));
    assert_eq!(registry.resolve_id(1), Err(Error::InvalidIndex));
    registry.declare(1).unwrap();
    assert_eq!(registry.resolve_index(1), Err(Error::InvalidIndex));
    assert_eq!(registry.resolve_index(usize::MAX), Err(Error::InvalidIndex));
    assert_eq!(registry.resolve_id(2), Err(Error::InvalidIndex));
}

#[test]
fn a_frozen_registry_takes_no_declaration() {
    let mut registry = ParameterRegistry::new();
    registry.declare(1).unwrap();
    registry.declare(2).unwrap();
    registry.freeze();
    assert!(registry.is_frozen());
    assert_eq!(registry.declare(3), Err(Error::RegistryFrozen));
    assert_eq!(registry.declare(1), Err(Error::RegistryFrozen));
    assert_eq!(registry.num_params(), 2);
    for index in 0..2 {
        let id = registry.resolve_index(index).unwrap();
        assert_eq!(registry.resolve_id(id), Ok(index));
    }
    registry.freeze();
    assert!(registry.is_frozen());
    assert_eq!(registry.num_params(), 2);
}

#[test]
fn parameters_are_read_through_the_registry() {
    let mut registry = ParameterRegistry::new();
    registry.declare(10).unwrap();
    registry.declare(20).unwrap();
    registry.declare(30).unwrap();
    let amount = ParamDef { valid_min: 0, valid_max: 100, default: 93, value: 5 };
    let other = ParamDef { valid_min: -1, valid_max: 1, default: 0, value: 1 };
    let defs = [amount, other];
    let params = Parameters { registry: &registry, defs: &defs };
    assert_eq!(params.num_params(), 3);
    assert_eq!(params.get(10), Ok(amount));
    assert_eq!(params.get(20), Ok(other));
    assert_eq!(params.get(30), Err(Error::InvalidIndex));
    assert_eq!(params.get(40), Err(Error::InvalidIndex));
    assert_eq!(params.type_for_index(1), Ok(20));
    assert_eq!(params.type_for_index(3), Err(Error::InvalidIndex));
}

#[test]
fn the_array_is_cut_to_the_declared_number() {
    let def = |value| ParamDef { valid_min: 0, valid_max: 9, default: 0, value };
    let defs = [def(1), def(2), def(3)];
    assert_eq!(visible_params(&defs, 0), &[]);
    assert_eq!(visible_params(&defs, 2), &[def(1), def(2)]);
    assert_eq!(visible_params(&defs, 3), &defs);
    assert_eq!(visible_params(&defs, 4), &defs);
    assert_eq!(visible_params(&defs, usize::MAX), &defs);
    assert_eq!(visible_params(&[], 4), &[]);
}
