use woland::mlir::{
    Attribute, Context, Location, MlirAttribute, MlirContext, MlirIdentifier, MlirLocation,
    MlirModule, MlirNamedAttribute, Module, NamedAttribute,
};

#[test]
fn handles_come_back_unchanged() {
    let ctx = Context::from_raw(MlirContext { ptr: 0x1000 });
    assert_eq!(ctx.as_raw(), MlirContext { ptr: 0x1000 });
    let module = Module::from_raw(MlirModule { ptr: 0x2000 });
    assert_eq!(module.as_raw(), MlirModule { ptr: 0x2000 });
    assert_eq!(module.into_raw(), MlirModule { ptr: 0x2000 });
    let loc = Location::from_raw(MlirLocation { ptr: 0x3000 });
    assert_eq!(loc.into_raw(), MlirLocation { ptr: 0x3000 });
}

#[test]
fn attributes_come_back_unchanged() {
    let raw = MlirAttribute { ptr: 42 };
    let attr = Attribute::from_raw(raw);
    assert_eq!(attr.as_raw(), raw);
    assert_eq!(attr.into_raw(), raw);
    let named = MlirNamedAttribute { name: MlirIdentifier { ptr: 7 }, attribute: raw };
    let n = NamedAttribute::from_raw(named);
    assert_eq!(n.as_raw(), named);
    assert_eq!(n.into_raw(), named);
}
