use pets::Cat;
use pets::ConversionError;
use pets::Dog;
use pets::Pet;
use pets::wrap_dog;

#[test]
fn test_add_assign_cat() {
    let mut cat = Cat {
        name: String::from("Silvester"),
        age: 10,
    };
    cat.add_assign(20);
    assert_eq!(cat.age, 30);
}

#[test]
fn test_add_to_cat() {
    let mut cat = Cat {
        name: String::from("Silvester"),
        age: 10,
    };
    cat = cat.add(20);
    assert_eq!(cat.age, 30);
}

#[test]
fn test_pet_dog_to_cat() {
    let pet = Pet::Dog(Dog);
    let cat = Cat::try_from(pet);
    assert_eq!(cat.is_err(), true)
}

#[test]
fn test_pet_to_cat() {
    let pet = Pet::Cat(Cat {
        name: String::from("Silvester"),
        age: 10,
    });
    if let Ok(cat) = Cat::try_from(pet) {
        assert_eq!(
            Cat {
                name: String::from("Silvester"),
                age: 10
            },
            cat
        )
    }
}

#[test]
fn test_cat_to_pet() {
    let cat = Cat {
        name: String::from("Silvester"),
        age: 10,
    };
    let pet: Pet = cat.into();
    match pet {
        Pet::Cat(cat) => {
            assert_eq!(
                cat,
                Cat {
                    name: String::from("Silvester"),
                    age: 10
                }
            )
        }
        _ => {}
    }
}

#[test]
fn test_increment_forms_agree() {
    let a = Cat {
        name: String::from("Mia"),
        age: 7,
    };
    let b = Cat {
        name: String::from("Mia"),
        age: 7,
    };
    let a = a.add(3);
    let mut b = b;
    b.add_assign(3);
    assert_eq!(a.age, 10);
    assert_eq!(b.age, 10);
    assert_eq!(a.name, "Mia");
    assert_eq!(b.name, "Mia");
    assert_eq!(a, b);
}

#[test]
fn test_wrap_unwrap_round_trip() {
    let cat = Cat {
        name: String::from("Silvester"),
        age: 10,
    };
    let pet: Pet = cat.into();
    let back = Cat::try_from(pet).unwrap();
    assert_eq!(
        back,
        Cat {
            name: String::from("Silvester"),
            age: 10
        }
    );
}

#[test]
fn test_dog_conversion_error() {
    let pet = wrap_dog();
    match Cat::try_from(pet) {
        Ok(_) => panic!("a dog must not convert to a cat"),
        Err(err) => {
            assert_eq!(err, ConversionError::InvalidConversion);
            assert_eq!(err.message(), "Dog cannot be converted to cat");
        }
    }
}

#[test]
fn test_structural_equality() {
    let a = Cat {
        name: String::from("Mia"),
        age: 4,
    };
    let b = Cat {
        name: String::from("Mia"),
        age: 4,
    };
    let older = Cat {
        name: String::from("Mia"),
        age: 5,
    };
    let renamed = Cat {
        name: String::from("Mio"),
        age: 4,
    };
    assert_eq!(a, b);
    assert_ne!(a, older);
    assert_ne!(a, renamed);
}

#[test]
fn test_display_idempotent() {
    let cat = Cat {
        name: String::from("Silvester"),
        age: 10,
    };
    let first = cat.display();
    let second = cat.display();
    assert_eq!(first, second);
    assert_eq!(first, "Cat Silvester, age: 10");
}

#[test]
fn test_display_rendering() {
    let newborn = Cat {
        name: String::from("Mia"),
        age: 0,
    };
    assert_eq!(newborn.display(), "Cat Mia, age: 0");
    let catty = Cat {
        name: String::from("catty"),
        age: 20,
    };
    assert_eq!(catty.display(), "Cat catty, age: 20");
    let ancient = Cat {
        name: String::from("Methuselah"),
        age: usize::MAX,
    };
    assert_eq!(
        ancient.display(),
        format!("Cat Methuselah, age: {}", usize::MAX)
    );
}

#[test]
fn test_clone_copies_both_fields() {
    let cat = Cat {
        name: String::from("Mia"),
        age: 4,
    };
    let mut copy = cat.clone();
    assert_eq!(cat, copy);
    copy.add_assign(1);
    assert_eq!(cat.age, 4);
    assert_eq!(copy.age, 5);
}

#[test]
fn test_name_ptr() {
    let cat = Cat {
        name: String::from("catty"),
        age: 10,
    };
    assert_eq!(cat.name_ptr(), "catty");
}

#[test]
fn test_demonstration_sequence() {
    let mut cat = Cat {
        name: String::from("catty"),
        age: 10,
    };
    cat.add_assign(5);
    cat = cat.add(5);
    assert_eq!(cat.display(), "Cat catty, age: 20");
    let pet: Pet = cat.into();
    let recovered = Cat::try_from(pet).unwrap();
    assert_eq!(recovered.display(), "Cat catty, age: 20");
}
