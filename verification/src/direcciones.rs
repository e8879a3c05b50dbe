//! Direcciones virtuales: cada segmento (global, local, temporal, constante)
//! reparte direcciones consecutivas por tipo.

use vstd::prelude::*;

use crate::tipos::Tipo;

verus! {

/// Los contadores de cada segmento de memoria virtual.
pub struct AdministradorDirecciones {
    pub global_entero: usize,
    pub global_flotante: usize,
    pub local_entero: usize,
    pub local_flotante: usize,
    pub temporal_entero: usize,
    pub temporal_flotante: usize,
    pub temporal_bool: usize,
    pub constante_entero: usize,
    pub constante_flotante: usize,
}

/// Los segmentos de memoria virtual.
#[derive(Debug, Clone, Copy, PartialEq, Eq, Structural)]
pub enum Segmento {
    Global,
    Local,
    Temporal,
    Constante,
}

impl AdministradorDirecciones {
    /// El contador que reparte direcciones de tipo `t` en el segmento `s`, si el
    /// segmento admite ese tipo.
    pub open spec fn contador(&self, s: Segmento, t: Tipo) -> Option<usize> {
        match (s, t) {
            (Segmento::Global, Tipo::Entero) => Some(self.global_entero),
            (Segmento::Global, Tipo::Flotante) => Some(self.global_flotante),
            (Segmento::Local, Tipo::Entero) => Some(self.local_entero),
            (Segmento::Local, Tipo::Flotante) => Some(self.local_flotante),
            (Segmento::Temporal, Tipo::Entero) => Some(self.temporal_entero),
            (Segmento::Temporal, Tipo::Flotante) => Some(self.temporal_flotante),
            (Segmento::Temporal, Tipo::Bool) => Some(self.temporal_bool),
            (Segmento::Constante, Tipo::Entero) => Some(self.constante_entero),
            (Segmento::Constante, Tipo::Flotante) => Some(self.constante_flotante),
            _ => None,
        }
    }

    /// Si el segmento `s` admite el tipo `t` y aún puede dar una dirección más.
    pub open spec fn puede_dar(&self, s: Segmento, t: Tipo) -> bool {
        match self.contador(s, t) {
            Some(c) => c < usize::MAX,
            None => false,
        }
    }

    /// Los contadores tras dar una dirección de tipo `t` en el segmento `s`: ese
    /// contador avanza uno y los demás quedan igual.
    pub open spec fn tras_dar(self, s: Segmento, t: Tipo) -> AdministradorDirecciones {
        match (s, t) {
            (Segmento::Global, Tipo::Entero) => AdministradorDirecciones {
                global_entero: (self.global_entero + 1) as usize,
                ..self
            },
            (Segmento::Global, Tipo::Flotante) => AdministradorDirecciones {
                global_flotante: (self.global_flotante + 1) as usize,
                ..self
            },
            (Segmento::Local, Tipo::Entero) => AdministradorDirecciones {
                local_entero: (self.local_entero + 1) as usize,
                ..self
            },
            (Segmento::Local, Tipo::Flotante) => AdministradorDirecciones {
                local_flotante: (self.local_flotante + 1) as usize,
                ..self
            },
            (Segmento::Temporal, Tipo::Entero) => AdministradorDirecciones {
                temporal_entero: (self.temporal_entero + 1) as usize,
                ..self
            },
            (Segmento::Temporal, Tipo::Flotante) => AdministradorDirecciones {
                temporal_flotante: (self.temporal_flotante + 1) as usize,
                ..self
            },
            (Segmento::Temporal, Tipo::Bool) => AdministradorDirecciones {
                temporal_bool: (self.temporal_bool + 1) as usize,
                ..self
            },
            (Segmento::Constante, Tipo::Entero) => AdministradorDirecciones {
                constante_entero: (self.constante_entero + 1) as usize,
                ..self
            },
            (Segmento::Constante, Tipo::Flotante) => AdministradorDirecciones {
                constante_flotante: (self.constante_flotante + 1) as usize,
                ..self
            },
            _ => self,
        }
    }

    /// Los contadores al empezar: cada segmento en la base de su rango.
    pub open spec fn inicial() -> AdministradorDirecciones {
        AdministradorDirecciones {
            global_entero: 1000,
            global_flotante: 2000,
            local_entero: 3000,
            local_flotante: 4000,
            temporal_entero: 5000,
            temporal_flotante: 6000,
            temporal_bool: 7000,
            constante_entero: 9000,
            constante_flotante: 10000,
        }
    }

    /// Un administrador con cada segmento en la base de su rango.
    pub fn nuevo() -> (r: Self)
        ensures
            r == Self::inicial(),
    {
        AdministradorDirecciones {
            global_entero: 1000,
            global_flotante: 2000,
            local_entero: 3000,
            local_flotante: 4000,
            temporal_entero: 5000,
            temporal_flotante: 6000,
            temporal_bool: 7000,
            constante_entero: 9000,
            constante_flotante: 10000,
        }
    }

    /// Da la siguiente dirección de tipo `tipo` del segmento `s`.
    fn dar(&mut self, s: Segmento, tipo: &Tipo) -> (r: usize)
        requires
            old(self).puede_dar(s, *tipo),
        ensures
            old(self).contador(s, *tipo) == Some(r),
            *final(self) == old(self).tras_dar(s, *tipo),
    {
        match (s, tipo) {
            (Segmento::Global, Tipo::Entero) => {
                let d = self.global_entero;
                self.global_entero = d + 1;
                d
            },
            (Segmento::Global, Tipo::Flotante) => {
                let d = self.global_flotante;
                self.global_flotante = d + 1;
                d
            },
            (Segmento::Local, Tipo::Entero) => {
                let d = self.local_entero;
                self.local_entero = d + 1;
                d
            },
            (Segmento::Local, Tipo::Flotante) => {
                let d = self.local_flotante;
                self.local_flotante = d + 1;
                d
            },
            (Segmento::Temporal, Tipo::Entero) => {
                let d = self.temporal_entero;
                self.temporal_entero = d + 1;
                d
            },
            (Segmento::Temporal, Tipo::Flotante) => {
                let d = self.temporal_flotante;
                self.temporal_flotante = d + 1;
                d
            },
            (Segmento::Temporal, Tipo::Bool) => {
                let d = self.temporal_bool;
                self.temporal_bool = d + 1;
                d
            },
            (Segmento::Constante, Tipo::Entero) => {
                let d = self.constante_entero;
                self.constante_entero = d + 1;
                d
            },
            (Segmento::Constante, Tipo::Flotante) => {
                let d = self.constante_flotante;
                self.constante_flotante = d + 1;
                d
            },
            _ => {
                0
            },
        }
    }

    /// Si el segmento `s` admite el tipo `tipo` y aún puede dar una dirección más.
    pub fn hay_direccion(&self, s: Segmento, tipo: &Tipo) -> (r: bool)
        ensures
            r == self.puede_dar(s, *tipo),
    {
        let c = match (s, tipo) {
            (Segmento::Global, Tipo::Entero) => self.global_entero,
            (Segmento::Global, Tipo::Flotante) => self.global_flotante,
            (Segmento::Local, Tipo::Entero) => self.local_entero,
            (Segmento::Local, Tipo::Flotante) => self.local_flotante,
            (Segmento::Temporal, Tipo::Entero) => self.temporal_entero,
            (Segmento::Temporal, Tipo::Flotante) => self.temporal_flotante,
            (Segmento::Temporal, Tipo::Bool) => self.temporal_bool,
            (Segmento::Constante, Tipo::Entero) => self.constante_entero,
            (Segmento::Constante, Tipo::Flotante) => self.constante_flotante,
            _ => {
                return false;
            },
        };
        c < usize::MAX
    }

    /// Una dirección global nueva para una variable entera o flotante.
    pub fn nueva_global(&mut self, tipo: &Tipo) -> (r: usize)
        requires
            old(self).puede_dar(Segmento::Global, *tipo),
        ensures
            old(self).contador(Segmento::Global, *tipo) == Some(r),
            *final(self) == old(self).tras_dar(Segmento::Global, *tipo),
    {
        self.dar(Segmento::Global, tipo)
    }

    /// Una dirección local nueva para un parámetro entero o flotante.
    pub fn nueva_local(&mut self, tipo: &Tipo) -> (r: usize)
        requires
            old(self).puede_dar(Segmento::Local, *tipo),
        ensures
            old(self).contador(Segmento::Local, *tipo) == Some(r),
            *final(self) == old(self).tras_dar(Segmento::Local, *tipo),
    {
        self.dar(Segmento::Local, tipo)
    }

    /// Una dirección temporal nueva para un resultado entero, flotante o booleano.
    pub fn nueva_temporal(&mut self, tipo: &Tipo) -> (r: usize)
        requires
            old(self).puede_dar(Segmento::Temporal, *tipo),
        ensures
            old(self).contador(Segmento::Temporal, *tipo) == Some(r),
            *final(self) == old(self).tras_dar(Segmento::Temporal, *tipo),
    {
        self.dar(Segmento::Temporal, tipo)
    }

    /// Una dirección nueva para una constante entera o flotante.
    pub fn nueva_constante(&mut self, tipo: &Tipo) -> (r: usize)
        requires
            old(self).puede_dar(Segmento::Constante, *tipo),
        ensures
            old(self).contador(Segmento::Constante, *tipo) == Some(r),
            *final(self) == old(self).tras_dar(Segmento::Constante, *tipo),
    {
        self.dar(Segmento::Constante, tipo)
    }
}

} // verus!
