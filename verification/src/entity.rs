//! The entities of the site: settings, packages, registrations, and the
//! forms that visitors send.

use vstd::prelude::*;

verus! {

/// A site-wide setting: a key, which identifies it, and its value.
#[derive(Debug, Clone, PartialEq, Eq)]
pub struct Setting {
    pub key: String,
    pub value: String,
}

/// The mathematical value of a [`Setting`].
pub struct SettingView {
    pub key: Seq<char>,
    pub value: Seq<char>,
}

impl View for Setting {
    type V = SettingView;

    open spec fn view(&self) -> SettingView {
        SettingView { key: self.key@, value: self.value@ }
    }
}

impl DeepView for Setting {
    type V = SettingView;

    open spec fn deep_view(&self) -> SettingView {
        self@
    }
}

/// An internet-service package of the catalog.  Without an `id` it is a new
/// package; with one it stands for the stored package of that id.
#[derive(Debug, Clone, PartialEq, Eq)]
pub struct Package {
    pub id: Option<i32>,
    pub name: String,
    pub speed: String,
    pub price: String,
    pub features: Vec<String>,
}

/// The mathematical value of a [`Package`].
pub struct PackageView {
    pub id: Option<int>,
    pub name: Seq<char>,
    pub speed: Seq<char>,
    pub price: Seq<char>,
    pub features: Seq<Seq<char>>,
}

impl View for Package {
    type V = PackageView;

    open spec fn view(&self) -> PackageView {
        PackageView {
            id: match self.id {
                Some(id) => Some(id as int),
                None => None,
            },
            name: self.name@,
            speed: self.speed@,
            price: self.price@,
            features: self.features.deep_view(),
        }
    }
}

impl DeepView for Package {
    type V = PackageView;

    open spec fn deep_view(&self) -> PackageView {
        self@
    }
}

/// What a visitor sends to register for a package.
#[derive(Debug, Clone, PartialEq, Eq)]
pub struct RegistrationForm {
    pub name: String,
    pub phone: String,
    pub address: String,
    pub package: String,
    pub notes: String,
}

/// The mathematical value of a [`RegistrationForm`].
pub struct RegistrationFormView {
    pub name: Seq<char>,
    pub phone: Seq<char>,
    pub address: Seq<char>,
    pub package: Seq<char>,
    pub notes: Seq<char>,
}

impl View for RegistrationForm {
    type V = RegistrationFormView;

    open spec fn view(&self) -> RegistrationFormView {
        RegistrationFormView {
            name: self.name@,
            phone: self.phone@,
            address: self.address@,
            package: self.package@,
            notes: self.notes@,
        }
    }
}

/// A stored registration.  Storage assigns `id` and `created_at`.
#[derive(Debug, Clone, PartialEq, Eq)]
pub struct Registration {
    pub id: i32,
    pub name: String,
    pub phone: String,
    pub address: String,
    pub package: String,
    pub notes: String,
    pub created_at: String,
}

/// The mathematical value of a [`Registration`].
pub struct RegistrationView {
    pub id: int,
    pub form: RegistrationFormView,
    pub created_at: Seq<char>,
}

impl View for Registration {
    type V = RegistrationView;

    open spec fn view(&self) -> RegistrationView {
        RegistrationView {
            id: self.id as int,
            form: RegistrationFormView {
                name: self.name@,
                phone: self.phone@,
                address: self.address@,
                package: self.package@,
                notes: self.notes@,
            },
            created_at: self.created_at@,
        }
    }
}

impl DeepView for Registration {
    type V = RegistrationView;

    open spec fn deep_view(&self) -> RegistrationView {
        self@
    }
}

/// What a visitor sends through the contact form.
#[derive(Debug, Clone, PartialEq, Eq)]
pub struct ContactForm {
    pub name: String,
    pub phone: String,
    pub address: String,
    pub package: String,
}

/// The mathematical value of a [`ContactForm`].
pub struct ContactFormView {
    pub name: Seq<char>,
    pub phone: Seq<char>,
    pub address: Seq<char>,
    pub package: Seq<char>,
}

impl View for ContactForm {
    type V = ContactFormView;

    open spec fn view(&self) -> ContactFormView {
        ContactFormView {
            name: self.name@,
            phone: self.phone@,
            address: self.address@,
            package: self.package@,
        }
    }
}

} // verus!
